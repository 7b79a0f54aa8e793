//! The decisions of the fetching steps: which server files to download,
//! where the wanted version's metadata is, and whether the data generator
//! must run again.

use vstd::prelude::*;

use crate::text::push_str;

verus! {

/// What the download step does: fetch the version manifest (and the
/// version's metadata), download the server jar, download the mappings.
#[derive(Clone, Copy, Debug, PartialEq, Eq, Structural)]
pub struct DownloadPlan {
    pub fetch_manifest: bool,
    pub fetch_jar: bool,
    pub fetch_mappings: bool,
}

/// One version of the launcher's version manifest.
#[derive(Debug)]
pub struct ManifestVersion {
    pub id: String,
    pub url: String,
}

/// The metadata URL of the first manifest version with the id `id`.
pub open spec fn version_url(vs: Seq<ManifestVersion>, id: Seq<char>) -> Option<Seq<char>>
    decreases vs.len(),
{
    if vs.len() == 0 {
        None
    } else if vs[0].id@ == id {
        Some(vs[0].url@)
    } else {
        version_url(vs.drop_first(), id)
    }
}

/// Decides the downloads from what is on disk. The jar is downloaded where
/// it is missing or a temporary file shows an interrupted download; the
/// manifest is fetched where the jar or the mappings need it; the mappings
/// are then downloaded only where the mappings file is missing (a stale
/// temporary mappings file alone fetches the manifest but downloads nothing
/// more).
pub fn plan_downloads(
    jar_is_file: bool,
    jar_tmp_is_file: bool,
    mappings_is_file: bool,
    mappings_tmp_is_file: bool,
) -> (res: DownloadPlan)
    ensures
        res.fetch_jar == (!jar_is_file || jar_tmp_is_file),
        res.fetch_manifest == (!jar_is_file || jar_tmp_is_file || !mappings_is_file
            || mappings_tmp_is_file),
        res.fetch_mappings == (res.fetch_manifest && !mappings_is_file),
        res.fetch_jar ==> res.fetch_manifest,
        res.fetch_mappings ==> res.fetch_manifest,
        jar_is_file && !jar_tmp_is_file && mappings_is_file && !mappings_tmp_is_file
            ==> !res.fetch_manifest && !res.fetch_jar && !res.fetch_mappings,
{
    let download_jar = !jar_is_file || jar_tmp_is_file;
    let download_mappings = !mappings_is_file || mappings_tmp_is_file;
    if !(download_jar || download_mappings) {
        return DownloadPlan { fetch_manifest: false, fetch_jar: false, fetch_mappings: false };
    }
    DownloadPlan { fetch_manifest: true, fetch_jar: download_jar, fetch_mappings: !mappings_is_file }
}

/// The metadata URL of the first version of the manifest whose id is
/// `version`, `None` where the manifest lists no such version.
pub fn find_version_url(versions: &Vec<ManifestVersion>, version: &str) -> (res: Option<String>)
    ensures
        match res {
            Some(u) => version_url(versions@, version@) == Some(u@),
            None => version_url(versions@, version@) is None,
        },
{
    let wanted = String::from_str(version);
    let n = versions.len();
    let mut i: usize = 0;
    assert(versions@.skip(0) =~= versions@);
    while i < n
        invariant
            n == versions@.len(),
            i <= n,
            wanted@ == version@,
            version_url(versions@, version@) == version_url(versions@.skip(i as int), version@),
        decreases n - i,
    {
        assert(versions@.skip(i as int)[0] == versions@[i as int]);
        assert(versions@.skip(i as int).drop_first() =~= versions@.skip(i + 1));
        if versions[i].id == wanted {
            return Some(versions[i].url.clone());
        }
        i = i + 1;
    }
    assert(versions@.skip(n as int) =~= Seq::<ManifestVersion>::empty());
    None
}

/// Law: the lookup finds the URL of a version with the wanted id, and no
/// earlier version of the manifest has that id; it finds nothing exactly
/// where no version has that id.
pub proof fn lemma_version_url_first(vs: Seq<ManifestVersion>, id: Seq<char>)
    ensures
        version_url(vs, id) is None <==> forall|j: int| 0 <= j < vs.len() ==> (#[trigger] vs[j]).id@ != id,
        version_url(vs, id) matches Some(u) ==> exists|i: int|
            0 <= i < vs.len() && (#[trigger] vs[i]).id@ == id && vs[i].url@ == u && forall|j: int|
                0 <= j < i ==> (#[trigger] vs[j]).id@ != id,
    decreases vs.len(),
{
    if vs.len() > 0 {
        let rest = vs.drop_first();
        lemma_version_url_first(rest, id);
        assert forall|j: int| 1 <= j < vs.len() implies vs[j] == rest[j - 1] by {}
        if vs[0].id@ == id {
            assert(vs[0].id@ == id);
        } else if let Some(u) = version_url(rest, id) {
            let k = choose|k: int|
                0 <= k < rest.len() && (#[trigger] rest[k]).id@ == id && rest[k].url@ == u
                    && forall|j: int| 0 <= j < k ==> (#[trigger] rest[j]).id@ != id;
            assert(vs[k + 1] == rest[k]);
            assert forall|j: int| 0 <= j < k + 1 implies (#[trigger] vs[j]).id@ != id by {
                if j > 0 {
                    assert(vs[j] == rest[j - 1]);
                }
            }
        } else {
            assert forall|j: int| 0 <= j < vs.len() implies (#[trigger] vs[j]).id@ != id by {
                if j > 0 {
                    assert(vs[j] == rest[j - 1]);
                }
            }
        }
    }
}

/// The progress message printed before the version's metadata is fetched.
pub fn version_info_message(version: &str) -> (res: String)
    ensures
        res@ == "Fetching "@ + version@ + " version info..."@,
{
    let mut out = String::new();
    push_str(&mut out, "Fetching ");
    push_str(&mut out, version);
    push_str(&mut out, " version info...");
    out
}

/// Whether the data generator's output can be kept: its directory exists
/// and no temporary directory shows an interrupted run.
pub fn datagen_is_current(output_is_dir: bool, tmp_is_dir: bool) -> (res: bool)
    ensures
        res == (output_is_dir && !tmp_is_dir),
{
    output_is_dir && !tmp_is_dir
}

/// The arguments given to `java` to run the server's data generator in its
/// temporary output directory.
pub fn datagen_args() -> (res: Vec<&'static str>)
    ensures
        res@.len() == 8,
        res@[0]@ == "-DbundlerMainClass=net.minecraft.data.Main"@,
        res@[1]@ == "-jar"@,
        res@[2]@ == "../server.jar"@,
        res@[3]@ == "--output"@,
        res@[4]@ == "./"@,
        res@[5]@ == "--server"@,
        res@[6]@ == "--all"@,
        res@[7]@ == "--dev"@,
{
    vec![
        "-DbundlerMainClass=net.minecraft.data.Main",
        "-jar",
        "../server.jar",
        "--output",
        "./",
        "--server",
        "--all",
        "--dev",
    ]
}

} // verus!
