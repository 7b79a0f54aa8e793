//! The packet id tables: one `packet_id` macro per connection state and
//! direction, generated from the server's packet report.

use vstd::prelude::*;

use crate::naming::{debug_quote, debug_str, pascal_case, second_segment, second_segment_of, to_pascal_case};
use crate::text::{
    concat, hex_byte, joined, lemma_joined_concat, lemma_joined_step, lemma_map_values_reorder,
    push_hex_byte, push_str,
};

verus! {

/// A state of the protocol's connection, in the order the report is read.
#[derive(Clone, Copy, Debug, PartialEq, Eq, Structural)]
pub enum ConnectionState {
    Handshake,
    Status,
    Login,
    Config,
    Play,
}

/// The direction of a packet: serverbound (`c2s`) or clientbound (`s2c`).
#[derive(Clone, Copy, Debug, PartialEq, Eq, Structural)]
pub enum Bound {
    C2s,
    S2c,
}

/// One packet of the report: its namespaced name and its protocol id.
#[derive(Debug)]
pub struct PacketEntry {
    pub name: String,
    pub protocol_id: u8,
}

/// The packets of one connection state, per direction, where the report has them.
#[derive(Debug)]
pub struct PacketsByBound {
    pub c2s: Option<Vec<PacketEntry>>,
    pub s2c: Option<Vec<PacketEntry>>,
}

/// The packet report: the packets of every connection state.
#[derive(Debug)]
pub struct PacketRegistry {
    pub handshake: PacketsByBound,
    pub status: PacketsByBound,
    pub login: PacketsByBound,
    pub config: PacketsByBound,
    pub play: PacketsByBound,
}

/// A generated source file: its name, the progress line printed for it,
/// and its text.
#[derive(Debug)]
pub struct GeneratedFile {
    pub file_name: String,
    pub label: String,
    pub contents: String,
}

impl View for GeneratedFile {
    type V = (Seq<char>, Seq<char>, Seq<char>);

    open spec fn view(&self) -> (Seq<char>, Seq<char>, Seq<char>) {
        (self.file_name@, self.label@, self.contents@)
    }
}

/// The name of a connection state as the report spells it.
pub open spec fn state_text(s: ConnectionState) -> Seq<char> {
    match s {
        ConnectionState::Handshake => "handshake"@,
        ConnectionState::Status => "status"@,
        ConnectionState::Login => "login"@,
        ConnectionState::Config => "config"@,
        ConnectionState::Play => "play"@,
    }
}

/// The short name of a direction, in lower case.
pub open spec fn bound_text(b: Bound) -> Seq<char> {
    match b {
        Bound::C2s => "c2s"@,
        Bound::S2c => "s2c"@,
    }
}

/// The short name of a direction, in upper case.
pub open spec fn bound_upper_text(b: Bound) -> Seq<char> {
    match b {
        Bound::C2s => "C2S"@,
        Bound::S2c => "S2C"@,
    }
}

/// The name of the file generated for a direction and state: `{bound}_{state}.rs`.
pub open spec fn packet_file_name(b: Bound, s: ConnectionState) -> Seq<char> {
    bound_text(b) + "_"@ + state_text(s) + ".rs"@
}

/// The progress line printed for a direction and state: two spaces, the
/// direction in upper case, the state in Pascal case.
pub open spec fn packet_label(b: Bound, s: ConnectionState) -> Seq<char> {
    packet_label_text(b, pascal_case(state_text(s)))
}

/// Every packet name of the list holds a namespace separator `:`.
pub open spec fn all_namespaced(es: Seq<PacketEntry>) -> bool {
    forall|i: int| 0 <= i < es.len() ==> (#[trigger] es[i]).name@.contains(':')
}

/// A macro arm that maps the string literal `quoted` to the protocol id
/// written as a two-digit hexadecimal literal.
pub open spec fn packet_arm_text(quoted: Seq<char>, protocol_id: u8) -> Seq<char> {
    "    ( "@ + quoted + " $(,)? ) => { 0x"@ + hex_byte(protocol_id) + " },\n"@
}

/// The macro arm for one packet: the path of its name, quoted as a string
/// literal, mapped to its id.
pub open spec fn packet_line(e: PacketEntry) -> Seq<char> {
    packet_arm_text(debug_str(second_segment(e.name@).unwrap()), e.protocol_id)
}

/// The progress line for a direction and a state name already in Pascal
/// case: two spaces, the direction in upper case, the state.
pub open spec fn packet_label_text(b: Bound, pascal_state: Seq<char>) -> Seq<char> {
    "  "@ + bound_upper_text(b) + pascal_state
}

/// The macro arms for a list of packets, one per packet, in list order.
pub open spec fn packet_lines(es: Seq<PacketEntry>) -> Seq<char> {
    joined(es, |e: PacketEntry| packet_line(e))
}

/// The macro arms for a list of packets, as a list with one arm per packet.
pub open spec fn packet_line_list(es: Seq<PacketEntry>) -> Seq<Seq<char>> {
    es.map_values(|e: PacketEntry| packet_line(e))
}

/// The generated `packet_id` macro for a list of packets.
pub open spec fn packet_macro(es: Seq<PacketEntry>) -> Seq<char> {
    "macro packet_id {\n"@ + packet_lines(es) + "}\n"@
}

/// The file generated for a direction and state with a list of packets.
pub open spec fn packet_file(b: Bound, s: ConnectionState, es: Seq<PacketEntry>) -> (
    Seq<char>,
    Seq<char>,
    Seq<char>,
) {
    (packet_file_name(b, s), packet_label(b, s), packet_macro(es))
}

/// The files generated for one connection state: first the serverbound,
/// then the clientbound one, each only where the report lists that direction.
pub open spec fn state_files(s: ConnectionState, by: PacketsByBound) -> Seq<
    (Seq<char>, Seq<char>, Seq<char>),
> {
    (match by.c2s {
        Some(v) => seq![packet_file(Bound::C2s, s, v@)],
        None => Seq::empty(),
    }) + (match by.s2c {
        Some(v) => seq![packet_file(Bound::S2c, s, v@)],
        None => Seq::empty(),
    })
}

/// The files generated for the whole report, state by state.
pub open spec fn registry_files(r: PacketRegistry) -> Seq<(Seq<char>, Seq<char>, Seq<char>)> {
    state_files(ConnectionState::Handshake, r.handshake) + state_files(
        ConnectionState::Status,
        r.status,
    ) + state_files(ConnectionState::Login, r.login) + state_files(
        ConnectionState::Config,
        r.config,
    ) + state_files(ConnectionState::Play, r.play)
}

/// Every packet name that the state's lists hold has a namespace separator.
pub open spec fn by_bound_namespaced(by: PacketsByBound) -> bool {
    &&& (by.c2s matches Some(v) ==> all_namespaced(v@))
    &&& (by.s2c matches Some(v) ==> all_namespaced(v@))
}

/// Every packet name of the report has a namespace separator.
pub open spec fn registry_namespaced(r: PacketRegistry) -> bool {
    &&& by_bound_namespaced(r.handshake)
    &&& by_bound_namespaced(r.status)
    &&& by_bound_namespaced(r.login)
    &&& by_bound_namespaced(r.config)
    &&& by_bound_namespaced(r.play)
}

/// The name of a connection state as the report spells it.
pub fn state_name(s: ConnectionState) -> (res: &'static str)
    ensures
        res@ == state_text(s),
{
    match s {
        ConnectionState::Handshake => "handshake",
        ConnectionState::Status => "status",
        ConnectionState::Login => "login",
        ConnectionState::Config => "config",
        ConnectionState::Play => "play",
    }
}

/// The short name of a direction, in lower case.
pub fn bound_name(b: Bound) -> (res: &'static str)
    ensures
        res@ == bound_text(b),
{
    match b {
        Bound::C2s => "c2s",
        Bound::S2c => "s2c",
    }
}

/// The short name of a direction, in upper case.
pub fn bound_upper_name(b: Bound) -> (res: &'static str)
    ensures
        res@ == bound_upper_text(b),
{
    match b {
        Bound::C2s => "C2S",
        Bound::S2c => "S2C",
    }
}

/// A macro arm that maps the string literal `quoted` to a protocol id.
pub fn packet_arm(quoted: &str, protocol_id: u8) -> (res: String)
    ensures
        res@ == packet_arm_text(quoted@, protocol_id),
{
    let mut out = String::new();
    push_str(&mut out, "    ( ");
    push_str(&mut out, quoted);
    push_str(&mut out, " $(,)? ) => { 0x");
    push_hex_byte(&mut out, protocol_id);
    push_str(&mut out, " },\n");
    out
}

/// The progress line for a direction and a state name in Pascal case.
pub fn packet_label_for(b: Bound, pascal_state: &str) -> (res: String)
    ensures
        res@ == packet_label_text(b, pascal_state@),
{
    let mut out = String::new();
    push_str(&mut out, "  ");
    push_str(&mut out, bound_upper_name(b));
    push_str(&mut out, pascal_state);
    out
}

/// The generated `packet_id` macro for a list of packets. Each packet name
/// must hold a `:` (the report's names are namespaced).
pub fn packet_id_macro(entries: &Vec<PacketEntry>) -> (res: String)
    requires
        all_namespaced(entries@),
    ensures
        res@ == packet_macro(entries@),
{
    let mut out = String::new();
    push_str(&mut out, "macro packet_id {\n");
    let n = entries.len();
    for i in 0..n
        invariant
            n == entries@.len(),
            all_namespaced(entries@),
            out@ == "macro packet_id {\n"@ + packet_lines(entries@.take(i as int)),
    {
        let e = &entries[i];
        assert(e.name@.contains(':'));
        proof {
            crate::naming::lemma_second_segment(e.name@);
        }
        let path = match second_segment_of(e.name.as_str()) {
            Some(p) => p,
            None => {
                assert(false);
                String::new()
            },
        };
        let quoted = debug_quote(path.as_str());
        let arm = packet_arm(quoted.as_str(), e.protocol_id);
        push_str(&mut out, arm.as_str());
        proof {
            lemma_joined_step(entries@, |e: PacketEntry| packet_line(e), i as int);
            assert(out@ =~= "macro packet_id {\n"@ + packet_lines(entries@.take(i + 1)));
        }
    }
    push_str(&mut out, "}\n");
    assert(entries@.take(n as int) =~= entries@);
    out
}

/// The file generated for a direction and state with a list of packets.
pub fn packet_file_for(b: Bound, s: ConnectionState, entries: &Vec<PacketEntry>) -> (res:
    GeneratedFile)
    requires
        all_namespaced(entries@),
    ensures
        res@ == packet_file(b, s, entries@),
{
    let mut file_name = String::new();
    push_str(&mut file_name, bound_name(b));
    push_str(&mut file_name, "_");
    push_str(&mut file_name, state_name(s));
    push_str(&mut file_name, ".rs");
    let pascal = to_pascal_case(state_name(s));
    let label = packet_label_for(b, pascal.as_str());
    let contents = packet_id_macro(entries);
    GeneratedFile { file_name, label, contents }
}

fn push_state_files(out: &mut Vec<GeneratedFile>, s: ConnectionState, by: &PacketsByBound)
    requires
        by_bound_namespaced(*by),
    ensures
        final(out)@.map_values(|f: GeneratedFile| f@) == old(out)@.map_values(
            |f: GeneratedFile| f@,
        ) + state_files(s, *by),
{
    let ghost start = out@.map_values(|f: GeneratedFile| f@);
    match &by.c2s {
        Some(v) => {
            out.push(packet_file_for(Bound::C2s, s, v));
        },
        None => {},
    }
    let ghost mid = out@.map_values(|f: GeneratedFile| f@);
    assert(mid =~= start + match by.c2s {
        Some(v) => seq![packet_file(Bound::C2s, s, v@)],
        None => Seq::empty(),
    });
    match &by.s2c {
        Some(v) => {
            out.push(packet_file_for(Bound::S2c, s, v));
        },
        None => {},
    }
    assert(out@.map_values(|f: GeneratedFile| f@) =~= start + state_files(s, *by));
}

/// The files generated for the packet report, in the order they are
/// written: state by state, serverbound before clientbound.
/// Every packet name must hold a `:`.
pub fn packet_files(registry: &PacketRegistry) -> (res: Vec<GeneratedFile>)
    requires
        registry_namespaced(*registry),
    ensures
        res@.map_values(|f: GeneratedFile| f@) == registry_files(*registry),
{
    let mut out: Vec<GeneratedFile> = Vec::new();
    assert(out@.map_values(|f: GeneratedFile| f@) =~= Seq::<(Seq<char>, Seq<char>, Seq<char>)>::empty());
    push_state_files(&mut out, ConnectionState::Handshake, &registry.handshake);
    push_state_files(&mut out, ConnectionState::Status, &registry.status);
    push_state_files(&mut out, ConnectionState::Login, &registry.login);
    push_state_files(&mut out, ConnectionState::Config, &registry.config);
    push_state_files(&mut out, ConnectionState::Play, &registry.play);
    assert(out@.map_values(|f: GeneratedFile| f@) =~= registry_files(*registry));
    out
}

/// Law: distinct pairs of direction and connection state get distinct file
/// names, so no generated packet file overwrites another.
pub proof fn lemma_packet_file_names_distinct(
    b1: Bound,
    s1: ConnectionState,
    b2: Bound,
    s2: ConnectionState,
)
    requires
        b1 != b2 || s1 != s2,
    ensures
        packet_file_name(b1, s1) != packet_file_name(b2, s2),
{
    reveal_strlit("handshake");
    reveal_strlit("status");
    reveal_strlit("login");
    reveal_strlit("config");
    reveal_strlit("play");
    reveal_strlit("c2s");
    reveal_strlit("s2c");
    reveal_strlit("_");
    reveal_strlit(".rs");
    let n1 = packet_file_name(b1, s1);
    let n2 = packet_file_name(b2, s2);
    assert(n1[0] == bound_text(b1)[0]);
    assert(n2[0] == bound_text(b2)[0]);
    assert(n1[4] == state_text(s1)[0]);
    assert(n2[4] == state_text(s2)[0]);
    if b1 != b2 {
        assert(n1[0] != n2[0]);
    } else {
        assert(n1[4] != n2[4]);
    }
}

/// No two files of the list share a name.
pub open spec fn file_names_distinct(fs: Seq<(Seq<char>, Seq<char>, Seq<char>)>) -> bool {
    forall|i: int, j: int|
        0 <= i < j < fs.len() ==> (#[trigger] fs[i]).0 != (#[trigger] fs[j]).0
}

/// Every file name of the list has a fifth character, drawn from `cs`.
spec fn fifth_chars_in(fs: Seq<(Seq<char>, Seq<char>, Seq<char>)>, cs: Set<char>) -> bool {
    forall|k: int|
        0 <= k < fs.len() ==> (#[trigger] fs[k]).0.len() > 4 && cs.contains(fs[k].0[4])
}

proof fn lemma_state_files_names(s: ConnectionState, by: PacketsByBound)
    ensures
        file_names_distinct(state_files(s, by)),
        fifth_chars_in(state_files(s, by), set![state_text(s)[0]]),
{
    reveal_strlit("handshake");
    reveal_strlit("status");
    reveal_strlit("login");
    reveal_strlit("config");
    reveal_strlit("play");
    reveal_strlit("c2s");
    reveal_strlit("s2c");
    reveal_strlit("_");
    reveal_strlit(".rs");
    let sf = state_files(s, by);
    assert forall|k: int| 0 <= k < sf.len() implies (#[trigger] sf[k]).0.len() > 4
        && set![state_text(s)[0]].contains(sf[k].0[4]) by {
        let b = if k == 0 && by.c2s is Some {
            Bound::C2s
        } else {
            Bound::S2c
        };
        assert(sf[k].0 == packet_file_name(b, s));
        assert(packet_file_name(b, s)[4] == state_text(s)[0]);
    }
    if sf.len() == 2 {
        assert(sf[0].0 == packet_file_name(Bound::C2s, s));
        assert(sf[1].0 == packet_file_name(Bound::S2c, s));
        assert(packet_file_name(Bound::C2s, s)[0] == 'c');
        assert(packet_file_name(Bound::S2c, s)[0] == 's');
    }
}

proof fn lemma_concat_names_distinct(
    x: Seq<(Seq<char>, Seq<char>, Seq<char>)>,
    y: Seq<(Seq<char>, Seq<char>, Seq<char>)>,
    cx: Set<char>,
    cy: Set<char>,
)
    requires
        file_names_distinct(x),
        file_names_distinct(y),
        fifth_chars_in(x, cx),
        fifth_chars_in(y, cy),
        cx.disjoint(cy),
    ensures
        file_names_distinct(x + y),
        fifth_chars_in(x + y, cx.union(cy)),
{
    let z = x + y;
    assert forall|i: int, j: int| 0 <= i < j < z.len() implies (#[trigger] z[i]).0
        != (#[trigger] z[j]).0 by {
        if j < x.len() {
            assert(z[i] == x[i] && z[j] == x[j]);
        } else if i >= x.len() {
            assert(z[i] == y[i - x.len()] && z[j] == y[j - x.len()]);
        } else {
            assert(z[i] == x[i] && z[j] == y[j - x.len()]);
            assert(cx.contains(z[i].0[4]) && cy.contains(z[j].0[4]));
        }
    }
    assert forall|k: int| 0 <= k < z.len() implies (#[trigger] z[k]).0.len() > 4 && cx.union(
        cy,
    ).contains(z[k].0[4]) by {
        if k < x.len() {
            assert(z[k] == x[k]);
        } else {
            assert(z[k] == y[k - x.len()]);
        }
    }
}

/// Law: the files generated for a report all have distinct names, so
/// writing them one after another loses none.
pub proof fn lemma_registry_file_names_distinct(r: PacketRegistry)
    ensures
        file_names_distinct(registry_files(r)),
{
    reveal_strlit("handshake");
    reveal_strlit("status");
    reveal_strlit("login");
    reveal_strlit("config");
    reveal_strlit("play");
    let a = state_files(ConnectionState::Handshake, r.handshake);
    let b = state_files(ConnectionState::Status, r.status);
    let c = state_files(ConnectionState::Login, r.login);
    let d = state_files(ConnectionState::Config, r.config);
    let e = state_files(ConnectionState::Play, r.play);
    lemma_state_files_names(ConnectionState::Handshake, r.handshake);
    lemma_state_files_names(ConnectionState::Status, r.status);
    lemma_state_files_names(ConnectionState::Login, r.login);
    lemma_state_files_names(ConnectionState::Config, r.config);
    lemma_state_files_names(ConnectionState::Play, r.play);
    let ca = set!['h'];
    let cb = set!['s'];
    let cc = set!['l'];
    let cd = set!['c'];
    let ce = set!['p'];
    assert(ca.disjoint(cb));
    lemma_concat_names_distinct(a, b, ca, cb);
    let cab = ca.union(cb);
    assert(cab.disjoint(cc));
    lemma_concat_names_distinct(a + b, c, cab, cc);
    let cabc = cab.union(cc);
    assert(cabc.disjoint(cd));
    lemma_concat_names_distinct(a + b + c, d, cabc, cd);
    let cabcd = cabc.union(cd);
    assert(cabcd.disjoint(ce));
    lemma_concat_names_distinct(a + b + c + d, e, cabcd, ce);
}

/// Law: the packets of a direction may come in any order (the report's map
/// is walked in no fixed order); whatever the order, the file has the same
/// name, progress line, first line and last line, is the first line, the
/// packets' arms one after another, and the last line, and holds the same
/// arms as any other order does, each as often.
pub proof fn lemma_packet_file_reorder(
    b: Bound,
    s: ConnectionState,
    es1: Seq<PacketEntry>,
    es2: Seq<PacketEntry>,
)
    requires
        es1.to_multiset() == es2.to_multiset(),
    ensures
        packet_file(b, s, es1).0 == packet_file(b, s, es2).0,
        packet_file(b, s, es1).1 == packet_file(b, s, es2).1,
        packet_file(b, s, es1).2 == "macro packet_id {\n"@ + concat(packet_line_list(es1))
            + "}\n"@,
        packet_file(b, s, es2).2 == "macro packet_id {\n"@ + concat(packet_line_list(es2))
            + "}\n"@,
        packet_line_list(es1).to_multiset() == packet_line_list(es2).to_multiset(),
{
    lemma_joined_concat(es1, |e: PacketEntry| packet_line(e));
    lemma_joined_concat(es2, |e: PacketEntry| packet_line(e));
    lemma_map_values_reorder(es1, es2, |e: PacketEntry| packet_line(e));
}

/// The same packets, in any order, or no packets at all on both sides.
pub open spec fn same_packets(a: Option<Vec<PacketEntry>>, b: Option<Vec<PacketEntry>>) -> bool {
    match (a, b) {
        (Some(x), Some(y)) => x@.to_multiset() == y@.to_multiset(),
        (None, None) => true,
        _ => false,
    }
}

/// Both states list the same packets per direction, in any order.
pub open spec fn same_by_bound(a: PacketsByBound, b: PacketsByBound) -> bool {
    same_packets(a.c2s, b.c2s) && same_packets(a.s2c, b.s2c)
}

/// Both reports list the same packets per state and direction, in any order
/// (as two reads of one report file do).
pub open spec fn same_registry(a: PacketRegistry, b: PacketRegistry) -> bool {
    &&& same_by_bound(a.handshake, b.handshake)
    &&& same_by_bound(a.status, b.status)
    &&& same_by_bound(a.login, b.login)
    &&& same_by_bound(a.config, b.config)
    &&& same_by_bound(a.play, b.play)
}

/// The lists of files of two reports correspond: file by file, the same
/// name and progress line, and contents made from the same packets in some
/// order.
pub open spec fn files_correspond(
    f1: Seq<(Seq<char>, Seq<char>, Seq<char>)>,
    f2: Seq<(Seq<char>, Seq<char>, Seq<char>)>,
) -> bool {
    &&& f1.len() == f2.len()
    &&& forall|i: int|
        0 <= i < f1.len() ==> {
            &&& (#[trigger] f1[i]).0 == f2[i].0
            &&& f1[i].1 == f2[i].1
            &&& exists|es1: Seq<PacketEntry>, es2: Seq<PacketEntry>|
                es1.to_multiset() == es2.to_multiset() && f1[i].2 == #[trigger] packet_macro(es1)
                    && f2[i].2 == #[trigger] packet_macro(es2)
        }
}

proof fn lemma_files_correspond_concat(
    a1: Seq<(Seq<char>, Seq<char>, Seq<char>)>,
    a2: Seq<(Seq<char>, Seq<char>, Seq<char>)>,
    b1: Seq<(Seq<char>, Seq<char>, Seq<char>)>,
    b2: Seq<(Seq<char>, Seq<char>, Seq<char>)>,
)
    requires
        files_correspond(a1, a2),
        files_correspond(b1, b2),
    ensures
        files_correspond(a1 + b1, a2 + b2),
{
    let c1 = a1 + b1;
    let c2 = a2 + b2;
    assert forall|i: int| 0 <= i < c1.len() implies {
        &&& (#[trigger] c1[i]).0 == c2[i].0
        &&& c1[i].1 == c2[i].1
        &&& exists|es1: Seq<PacketEntry>, es2: Seq<PacketEntry>|
            es1.to_multiset() == es2.to_multiset() && c1[i].2 == #[trigger] packet_macro(es1)
                && c2[i].2 == #[trigger] packet_macro(es2)
    } by {
        if i < a1.len() {
            assert(c1[i] == a1[i] && c2[i] == a2[i]);
        } else {
            assert(c1[i] == b1[i - a1.len()] && c2[i] == b2[i - a1.len()]);
        }
    }
}

proof fn lemma_state_files_correspond(s: ConnectionState, a: PacketsByBound, b: PacketsByBound)
    requires
        same_by_bound(a, b),
    ensures
        files_correspond(state_files(s, a), state_files(s, b)),
{
    let f1 = state_files(s, a);
    let f2 = state_files(s, b);
    assert forall|i: int| 0 <= i < f1.len() implies {
        &&& (#[trigger] f1[i]).0 == f2[i].0
        &&& f1[i].1 == f2[i].1
        &&& exists|es1: Seq<PacketEntry>, es2: Seq<PacketEntry>|
            es1.to_multiset() == es2.to_multiset() && f1[i].2 == #[trigger] packet_macro(es1)
                && f2[i].2 == #[trigger] packet_macro(es2)
    } by {
        if i == 0 && a.c2s is Some {
            let x = a.c2s->0;
            let y = b.c2s->0;
            assert(f1[i] == packet_file(Bound::C2s, s, x@));
            assert(f2[i] == packet_file(Bound::C2s, s, y@));
        } else {
            let x = a.s2c->0;
            let y = b.s2c->0;
            assert(f1[i] == packet_file(Bound::S2c, s, x@));
            assert(f2[i] == packet_file(Bound::S2c, s, y@));
        }
    }
}

/// Law: two reports that list the same packets per state and direction, in
/// any order, give the same files with the same names and progress lines,
/// in the same order; corresponding files are made from the same packets
/// (so, by `lemma_packet_file_reorder`, they share their first and last
/// lines and hold the same arms, each as often).
pub proof fn lemma_registry_files_reorder(r1: PacketRegistry, r2: PacketRegistry)
    requires
        same_registry(r1, r2),
    ensures
        files_correspond(registry_files(r1), registry_files(r2)),
{
    lemma_state_files_correspond(ConnectionState::Handshake, r1.handshake, r2.handshake);
    lemma_state_files_correspond(ConnectionState::Status, r1.status, r2.status);
    lemma_state_files_correspond(ConnectionState::Login, r1.login, r2.login);
    lemma_state_files_correspond(ConnectionState::Config, r1.config, r2.config);
    lemma_state_files_correspond(ConnectionState::Play, r1.play, r2.play);
    let a1 = state_files(ConnectionState::Handshake, r1.handshake);
    let a2 = state_files(ConnectionState::Handshake, r2.handshake);
    let b1 = state_files(ConnectionState::Status, r1.status);
    let b2 = state_files(ConnectionState::Status, r2.status);
    let c1 = state_files(ConnectionState::Login, r1.login);
    let c2 = state_files(ConnectionState::Login, r2.login);
    let d1 = state_files(ConnectionState::Config, r1.config);
    let d2 = state_files(ConnectionState::Config, r2.config);
    let e1 = state_files(ConnectionState::Play, r1.play);
    let e2 = state_files(ConnectionState::Play, r2.play);
    lemma_files_correspond_concat(a1, a2, b1, b2);
    lemma_files_correspond_concat(a1 + b1, a2 + b2, c1, c2);
    lemma_files_correspond_concat(a1 + b1 + c1, a2 + b2 + c2, d1, d2);
    lemma_files_correspond_concat(a1 + b1 + c1 + d1, a2 + b2 + c2 + d2, e1, e2);
}

/// The file that one direction of one state of a report gives, written out
/// from its parts: the file's name; the progress line of two spaces, the
/// direction in upper case and the state in Pascal case; and the macro that
/// maps, for every packet of the list in order, the path of its name (quoted
/// as a string literal) to its id as a two-digit hexadecimal literal. No
/// file where the report lists no such direction.
#[verifier::opaque]
pub open spec fn listed_packet_file(
    name: Seq<char>,
    upper: Seq<char>,
    state: Seq<char>,
    list: Option<Vec<PacketEntry>>,
) -> Seq<(Seq<char>, Seq<char>, Seq<char>)> {
    match list {
        Some(v) => seq![
            (
                name,
                "  "@ + upper + pascal_case(state),
                "macro packet_id {\n"@ + concat(
                    v@.map_values(
                        |e: PacketEntry|
                            "    ( "@ + debug_str(second_segment(e.name@).unwrap())
                                + " $(,)? ) => { 0x"@ + hex_byte(e.protocol_id) + " },\n"@,
                    ),
                ) + "}\n"@,
            ),
        ],
        None => Seq::empty(),
    }
}

proof fn lemma_listed_packet_file(
    b: Bound,
    s: ConnectionState,
    list: Option<Vec<PacketEntry>>,
    name: Seq<char>,
    upper: Seq<char>,
    state: Seq<char>,
)
    requires
        name == packet_file_name(b, s),
        upper == bound_upper_text(b),
        state == state_text(s),
    ensures
        (match list {
            Some(v) => seq![packet_file(b, s, v@)],
            None => Seq::empty(),
        }) == listed_packet_file(name, upper, state, list),
{
    reveal(listed_packet_file);
    if let Some(v) = list {
        lemma_joined_concat(v@, |e: PacketEntry| packet_line(e));
        assert(v@.map_values(|e: PacketEntry| packet_line(e)) =~= v@.map_values(
            |e: PacketEntry|
                "    ( "@ + debug_str(second_segment(e.name@).unwrap()) + " $(,)? ) => { 0x"@
                    + hex_byte(e.protocol_id) + " },\n"@,
        ));
        assert(seq![packet_file(b, s, v@)] =~= listed_packet_file(name, upper, state, list));
    } else {
        assert(Seq::<(Seq<char>, Seq<char>, Seq<char>)>::empty() =~= listed_packet_file(
            name,
            upper,
            state,
            list,
        ));
    }
}

proof fn lemma_file_name_literal(b: Bound, s: ConnectionState)
    ensures
        packet_file_name(b, s) == match (b, s) {
        (Bound::C2s, ConnectionState::Handshake) => "c2s_handshake.rs"@,
        (Bound::S2c, ConnectionState::Handshake) => "s2c_handshake.rs"@,
        (Bound::C2s, ConnectionState::Status) => "c2s_status.rs"@,
        (Bound::S2c, ConnectionState::Status) => "s2c_status.rs"@,
        (Bound::C2s, ConnectionState::Login) => "c2s_login.rs"@,
        (Bound::S2c, ConnectionState::Login) => "s2c_login.rs"@,
        (Bound::C2s, ConnectionState::Config) => "c2s_config.rs"@,
        (Bound::S2c, ConnectionState::Config) => "s2c_config.rs"@,
        (Bound::C2s, ConnectionState::Play) => "c2s_play.rs"@,
        (Bound::S2c, ConnectionState::Play) => "s2c_play.rs"@,
        },
{
    reveal_strlit("_");
    reveal_strlit(".rs");
    match (b, s) {
        (Bound::C2s, ConnectionState::Handshake) => {
            reveal_strlit("c2s");
            reveal_strlit("handshake");
            reveal_strlit("c2s_handshake.rs");
            assert(packet_file_name(b, s) =~= "c2s_handshake.rs"@);
        },
        (Bound::S2c, ConnectionState::Handshake) => {
            reveal_strlit("s2c");
            reveal_strlit("handshake");
            reveal_strlit("s2c_handshake.rs");
            assert(packet_file_name(b, s) =~= "s2c_handshake.rs"@);
        },
        (Bound::C2s, ConnectionState::Status) => {
            reveal_strlit("c2s");
            reveal_strlit("status");
            reveal_strlit("c2s_status.rs");
            assert(packet_file_name(b, s) =~= "c2s_status.rs"@);
        },
        (Bound::S2c, ConnectionState::Status) => {
            reveal_strlit("s2c");
            reveal_strlit("status");
            reveal_strlit("s2c_status.rs");
            assert(packet_file_name(b, s) =~= "s2c_status.rs"@);
        },
        (Bound::C2s, ConnectionState::Login) => {
            reveal_strlit("c2s");
            reveal_strlit("login");
            reveal_strlit("c2s_login.rs");
            assert(packet_file_name(b, s) =~= "c2s_login.rs"@);
        },
        (Bound::S2c, ConnectionState::Login) => {
            reveal_strlit("s2c");
            reveal_strlit("login");
            reveal_strlit("s2c_login.rs");
            assert(packet_file_name(b, s) =~= "s2c_login.rs"@);
        },
        (Bound::C2s, ConnectionState::Config) => {
            reveal_strlit("c2s");
            reveal_strlit("config");
            reveal_strlit("c2s_config.rs");
            assert(packet_file_name(b, s) =~= "c2s_config.rs"@);
        },
        (Bound::S2c, ConnectionState::Config) => {
            reveal_strlit("s2c");
            reveal_strlit("config");
            reveal_strlit("s2c_config.rs");
            assert(packet_file_name(b, s) =~= "s2c_config.rs"@);
        },
        (Bound::C2s, ConnectionState::Play) => {
            reveal_strlit("c2s");
            reveal_strlit("play");
            reveal_strlit("c2s_play.rs");
            assert(packet_file_name(b, s) =~= "c2s_play.rs"@);
        },
        (Bound::S2c, ConnectionState::Play) => {
            reveal_strlit("s2c");
            reveal_strlit("play");
            reveal_strlit("s2c_play.rs");
            assert(packet_file_name(b, s) =~= "s2c_play.rs"@);
        },
    }
}

proof fn lemma_state_listed(s: ConnectionState, by: PacketsByBound)
    ensures
        state_files(s, by) == listed_packet_file(
            packet_file_name(Bound::C2s, s),
            "C2S"@,
            state_text(s),
            by.c2s,
        ) + listed_packet_file(packet_file_name(Bound::S2c, s), "S2C"@, state_text(s), by.s2c),
{
    lemma_listed_packet_file(Bound::C2s, s, by.c2s, packet_file_name(Bound::C2s, s), "C2S"@, state_text(s));
    lemma_listed_packet_file(Bound::S2c, s, by.s2c, packet_file_name(Bound::S2c, s), "S2C"@, state_text(s));
}

/// Law: the files of a report, in order: for each state in turn
/// (handshake, status, login, configuration, play) and, within it, for
/// serverbound then clientbound, the file named after that direction and
/// that state, made from exactly the packets that the report lists for that
/// state and direction, where it lists them.
pub proof fn lemma_registry_files_spelled_out(r: PacketRegistry)
    ensures
        registry_files(r) == (listed_packet_file("c2s_handshake.rs"@, "C2S"@, "handshake"@, r.handshake.c2s)
            + listed_packet_file("s2c_handshake.rs"@, "S2C"@, "handshake"@, r.handshake.s2c))
            + (listed_packet_file("c2s_status.rs"@, "C2S"@, "status"@, r.status.c2s)
            + listed_packet_file("s2c_status.rs"@, "S2C"@, "status"@, r.status.s2c))
            + (listed_packet_file("c2s_login.rs"@, "C2S"@, "login"@, r.login.c2s)
            + listed_packet_file("s2c_login.rs"@, "S2C"@, "login"@, r.login.s2c))
            + (listed_packet_file("c2s_config.rs"@, "C2S"@, "config"@, r.config.c2s)
            + listed_packet_file("s2c_config.rs"@, "S2C"@, "config"@, r.config.s2c))
            + (listed_packet_file("c2s_play.rs"@, "C2S"@, "play"@, r.play.c2s)
            + listed_packet_file("s2c_play.rs"@, "S2C"@, "play"@, r.play.s2c)),
{
    lemma_state_listed(ConnectionState::Handshake, r.handshake);
    lemma_state_listed(ConnectionState::Status, r.status);
    lemma_state_listed(ConnectionState::Login, r.login);
    lemma_state_listed(ConnectionState::Config, r.config);
    lemma_state_listed(ConnectionState::Play, r.play);
    lemma_file_name_literal(Bound::C2s, ConnectionState::Handshake);
    lemma_file_name_literal(Bound::S2c, ConnectionState::Handshake);
    lemma_file_name_literal(Bound::C2s, ConnectionState::Status);
    lemma_file_name_literal(Bound::S2c, ConnectionState::Status);
    lemma_file_name_literal(Bound::C2s, ConnectionState::Login);
    lemma_file_name_literal(Bound::S2c, ConnectionState::Login);
    lemma_file_name_literal(Bound::C2s, ConnectionState::Config);
    lemma_file_name_literal(Bound::S2c, ConnectionState::Config);
    lemma_file_name_literal(Bound::C2s, ConnectionState::Play);
    lemma_file_name_literal(Bound::S2c, ConnectionState::Play);
}

} // verus!
