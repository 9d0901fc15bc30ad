//! Sidebar sections of a project layout, and the create/update verbs that
//! mutate a project's layout.

use vstd::prelude::*;
use crate::text::{owned, concat, str_eq};

verus! {

broadcast use vstd::string::group_string_axioms;

/// What a section shows.
#[derive(Debug, Clone, Copy, PartialEq, Eq, Structural)]
pub enum SectionKind {
    Branch,
    Comando,
    Checks,
    Livre,
}

/// Which parts of a section's header are drawn.
#[derive(Debug, Clone, Copy, PartialEq, Eq, Structural)]
pub struct SectionParts {
    pub dots: bool,
    pub diff: bool,
}

impl SectionParts {
    /// Every part drawn.
    pub open spec fn spec_default() -> SectionParts {
        SectionParts { dots: true, diff: true }
    }
}

impl Default for SectionParts {
    fn default() -> (r: Self)
        ensures
            r == SectionParts::spec_default(),
    {
        SectionParts { dots: true, diff: true }
    }
}

/// One member row of a section.
#[derive(Debug, Clone, PartialEq, Eq)]
pub enum SectionChild {
    /// A workspace row, matched to git checkouts by `checkout`.
    Workspace { name: String, checkout: String },
}

/// A section of a project layout.
#[derive(Debug, Clone, PartialEq, Eq)]
pub struct Section {
    pub id: String,
    pub kind: SectionKind,
    pub name: Option<String>,
    pub header_on: bool,
    pub parts: SectionParts,
    pub children: Vec<SectionChild>,
}

/// Where a section update is aimed: a section's id, or the checkout whose
/// Branch section should be found (or materialized).
#[derive(Debug, Clone, PartialEq, Eq)]
pub enum SectionTarget {
    Id(String),
    Checkout(String),
}

/// `child` is a workspace row for `checkout`.
pub open spec fn child_names_checkout(child: SectionChild, checkout: Seq<char>) -> bool {
    match child {
        SectionChild::Workspace { checkout: key, .. } => key@ == checkout,
    }
}

/// `s` is a Branch section and some child of it is a workspace row for
/// `checkout`.
pub open spec fn declares(s: Section, checkout: Seq<char>) -> bool {
    &&& s.kind == SectionKind::Branch
    &&& exists|i: int| 0 <= i < s.children@.len() && child_names_checkout(#[trigger] s.children@[i], checkout)
}

/// `k` is the first Branch section of `layout` declaring `checkout`.
pub open spec fn first_declaring(layout: Seq<Section>, checkout: Seq<char>, k: int) -> bool {
    &&& 0 <= k < layout.len()
    &&& declares(layout[k], checkout)
    &&& forall|j: int| 0 <= j < k ==> !declares(#[trigger] layout[j], checkout)
}

/// `k` is the first section of `layout` carrying `id`.
pub open spec fn first_with_id(layout: Seq<Section>, id: Seq<char>, k: int) -> bool {
    &&& 0 <= k < layout.len()
    &&& layout[k].id@ == id
    &&& forall|j: int| 0 <= j < k ==> (#[trigger] layout[j]).id@ != id
}

/// Some section of `layout` carries `id`.
pub open spec fn has_id(layout: Seq<Section>, id: Seq<char>) -> bool {
    exists|k: int| 0 <= k < layout.len() && (#[trigger] layout[k]).id@ == id
}

/// No section of `layout` carries `id`.
pub open spec fn fresh_id(layout: Seq<Section>, id: Seq<char>) -> bool {
    !has_id(layout, id)
}

/// `s` with each given field applied and every other field kept.
pub open spec fn apply_update(s: Section, header_on: Option<bool>, dots: Option<bool>, diff: Option<bool>) -> Section {
    Section {
        header_on: match header_on {
            Some(h) => h,
            None => s.header_on,
        },
        parts: SectionParts {
            dots: match dots {
                Some(d) => d,
                None => s.parts.dots,
            },
            diff: match diff {
                Some(d) => d,
                None => s.parts.diff,
            },
        },
        ..s
    }
}

/// The Branch section materialized for a checkout no section declares yet.
pub open spec fn materialized_section(id: Seq<char>, checkout: Seq<char>, s: Section) -> bool {
    &&& s.id@ == id
    &&& s.kind == SectionKind::Branch
    &&& s.name is None
    &&& s.header_on
    &&& s.parts == SectionParts::spec_default()
    &&& s.children@.len() == 1
    &&& s.children@[0] matches SectionChild::Workspace { name, checkout: key } && name@ == checkout
        && key@ == checkout
}

/// Index of the first section carrying `id`, if any.
fn find_id(layout: &Vec<Section>, id: &str) -> (r: Option<usize>)
    ensures
        match r {
            Some(k) => first_with_id(layout@, id@, k as int),
            None => fresh_id(layout@, id@),
        },
{
    let mut i: usize = 0;
    while i < layout.len()
        invariant
            i <= layout.len(),
            forall|j: int| 0 <= j < i ==> (#[trigger] layout@[j]).id@ != id@,
        decreases layout.len() - i,
    {
        if str_eq(layout[i].id.as_str(), id) {
            return Some(i);
        }
        i = i + 1;
    }
    None
}

fn section_declares(s: &Section, checkout: &str) -> (r: bool)
    ensures
        r == declares(*s, checkout@),
{
    match s.kind {
        SectionKind::Branch => {},
        _ => return false,
    }
    let mut i: usize = 0;
    while i < s.children.len()
        invariant
            s.kind == SectionKind::Branch,
            i <= s.children.len(),
            forall|j: int| 0 <= j < i ==> !child_names_checkout(#[trigger] s.children@[j], checkout@),
        decreases s.children.len() - i,
    {
        match &s.children[i] {
            SectionChild::Workspace { checkout: key, .. } => {
                if str_eq(key.as_str(), checkout) {
                    return true;
                }
            },
        }
        i = i + 1;
    }
    false
}

/// Index of the first Branch section declaring `checkout`, if any.
fn find_declaring(layout: &[Section], checkout: &str) -> (r: Option<usize>)
    ensures
        match r {
            Some(k) => first_declaring(layout@, checkout@, k as int),
            None => forall|k: int| 0 <= k < layout@.len() ==> !declares(#[trigger] layout@[k], checkout@),
        },
{
    let mut i: usize = 0;
    while i < layout.len()
        invariant
            i <= layout.len(),
            forall|j: int| 0 <= j < i ==> !declares(#[trigger] layout@[j], checkout@),
        decreases layout.len() - i,
    {
        if section_declares(&layout[i], checkout) {
            return Some(i);
        }
        i = i + 1;
    }
    None
}

/// Lowercase hex digits of `n`, most significant first (`"0"` for zero).
pub open spec fn hex_digits(n: nat) -> Seq<char>
    decreases n,
{
    if n < 16 {
        seq![hex_digit(n)]
    } else {
        hex_digits(n / 16).push(hex_digit(n % 16))
    }
}

pub open spec fn hex_digit(d: nat) -> char {
    if d < 10 {
        (('0' as nat) + d) as char
    } else {
        (('a' as nat) + d - 10) as char
    }
}

fn hex_digit_str(d: u64) -> (r: &'static str)
    requires
        d < 16,
    ensures
        r@ == seq![hex_digit(d as nat)],
{
    proof {
        reveal_strlit("0");
        reveal_strlit("1");
        reveal_strlit("2");
        reveal_strlit("3");
        reveal_strlit("4");
        reveal_strlit("5");
        reveal_strlit("6");
        reveal_strlit("7");
        reveal_strlit("8");
        reveal_strlit("9");
        reveal_strlit("a");
        reveal_strlit("b");
        reveal_strlit("c");
        reveal_strlit("d");
        reveal_strlit("e");
        reveal_strlit("f");
    }
    let r = match d {
        0 => "0",
        1 => "1",
        2 => "2",
        3 => "3",
        4 => "4",
        5 => "5",
        6 => "6",
        7 => "7",
        8 => "8",
        9 => "9",
        10 => "a",
        11 => "b",
        12 => "c",
        13 => "d",
        14 => "e",
        _ => "f",
    };
    assert(r@ =~= seq![hex_digit(d as nat)]);
    r
}

/// `n` in lowercase hexadecimal.
pub fn hex_string(n: u64) -> (r: String)
    ensures
        r@ == hex_digits(n as nat),
    decreases n,
{
    if n < 16 {
        owned(hex_digit_str(n))
    } else {
        let head = hex_string(n / 16);
        concat(head.as_str(), hex_digit_str(n % 16))
    }
}

/// A section id that no section of `layout` carries: `sec-` and the hex
/// `seed`, lengthened with `x`s past every existing id when it is taken.
pub fn generate_section_id(layout: &Vec<Section>, seed: u64) -> (r: String)
    ensures
        fresh_id(layout@, r@),
        r@.len() >= 5,
        r@.subrange(0, 4) == "sec-"@,
{
    proof {
        reveal_strlit("sec-");
        reveal_strlit("x");
    }
    let mut longest: usize = 0;
    let mut i: usize = 0;
    while i < layout.len()
        invariant
            i <= layout.len(),
            forall|j: int| 0 <= j < i ==> (#[trigger] layout@[j]).id@.len() <= longest,
        decreases layout.len() - i,
    {
        let n = layout[i].id.as_str().unicode_len();
        if n > longest {
            longest = n;
        }
        i = i + 1;
    }
    let digits = hex_string(seed);
    let mut id = concat("sec-", digits.as_str());
    assert(id@.subrange(0, 4) =~= "sec-"@);
    loop
        invariant
            forall|j: int| 0 <= j < layout@.len() ==> (#[trigger] layout@[j]).id@.len() <= longest,
            id@.len() >= 5,
            id@.subrange(0, 4) == "sec-"@,
        ensures
            fresh_id(layout@, id@),
            id@.len() >= 5,
            id@.subrange(0, 4) == "sec-"@,
        decreases longest + 1 - id@.len(),
    {
        match find_id(layout, id.as_str()) {
            None => {
                break;
            },
            Some(k) => {
                assert(layout@[k as int].id@.len() <= longest);
            },
        }
        let ghost before = id@;
        proof {
            reveal_strlit("x");
        }
        id = concat(id.as_str(), "x");
        assert(id@.subrange(0, 4) =~= before.subrange(0, 4));
    }
    id
}

/// Applies the given fields to the first section carrying `id`.
fn apply_to_first_with_id(
    layout: &mut Vec<Section>,
    k: usize,
    header_on: Option<bool>,
    dots: Option<bool>,
    diff: Option<bool>,
)
    requires
        k < old(layout)@.len(),
    ensures
        final(layout)@ == old(layout)@.update(k as int, apply_update(old(layout)@[k as int], header_on, dots, diff)),
{
    let mut section = layout.remove(k);
    if let Some(h) = header_on {
        section.header_on = h;
    }
    if let Some(d) = dots {
        section.parts.dots = d;
    }
    if let Some(d) = diff {
        section.parts.diff = d;
    }
    layout.insert(k, section);
    assert(layout@ =~= old(layout)@.update(k as int, apply_update(old(layout)@[k as int], header_on, dots, diff)));
}

/// Applies `header_on`/`dots`/`diff` (each `None` leaves its field alone) to
/// the section `target` names and returns the id the update landed on.
///
/// An `Id` target fails closed: `None`, and nothing changes, when no section
/// carries the id. A `Checkout` target never fails: it lands on the first
/// section declaring the checkout, or appends a new Branch section for it
/// (header on, default parts, one workspace child) and lands there.
pub fn update_section_with_seed(
    layout: &mut Vec<Section>,
    target: &SectionTarget,
    header_on: Option<bool>,
    dots: Option<bool>,
    diff: Option<bool>,
    seed: u64,
) -> (r: Option<String>)
    ensures
        update_section_post(old(layout)@, final(layout)@, *target, header_on, dots, diff, r),
{
    match target {
        SectionTarget::Id(id) => {
            match find_id(layout, id.as_str()) {
                Some(k) => {
                    let ghost before = layout@;
                    apply_to_first_with_id(layout, k, header_on, dots, diff);
                    assert(first_with_id(before, id@, k as int));
                    assert(has_id(before, id@));
                    Some(owned(id.as_str()))
                },
                None => None,
            }
        },
        SectionTarget::Checkout(checkout) => {
            match find_declaring(layout.as_slice(), checkout.as_str()) {
                Some(d) => {
                    let id = owned(layout[d].id.as_str());
                    let k = find_id(layout, id.as_str());
                    match k {
                        Some(k) => {
                            apply_to_first_with_id(layout, k, header_on, dots, diff);
                        },
                        None => {},
                    }
                    Some(id)
                },
                None => {
                    let id = generate_section_id(layout, seed);
                    let mut children: Vec<SectionChild> = Vec::new();
                    children.push(SectionChild::Workspace { name: owned(checkout.as_str()), checkout: owned(checkout.as_str()) });
                    let fresh = Section {
                        id: owned(id.as_str()),
                        kind: SectionKind::Branch,
                        name: None,
                        header_on: true,
                        parts: SectionParts::default(),
                        children,
                    };
                    let ghost made = fresh;
                    let mut section = fresh;
                    if let Some(h) = header_on {
                        section.header_on = h;
                    }
                    if let Some(d) = dots {
                        section.parts.dots = d;
                    }
                    if let Some(d) = diff {
                        section.parts.diff = d;
                    }
                    assert(section == apply_update(made, header_on, dots, diff));
                    let ghost before = layout@;
                    layout.push(section);
                    proof {
                        assert(made.children@[0] == SectionChild::Workspace { name: made.children@[0]->name, checkout: made.children@[0]->checkout });
                        assert(materialized_section(made.id@, checkout@, made));
                        assert(fresh_id(before, made.id@));
                    }
                    Some(id)
                },
            }
        },
    }
}

/// What `update_section` does to a layout, per target.
pub open spec fn update_section_post(
    before: Seq<Section>,
    after: Seq<Section>,
    target: SectionTarget,
    header_on: Option<bool>,
    dots: Option<bool>,
    diff: Option<bool>,
    r: Option<String>,
) -> bool {
    match target {
        SectionTarget::Id(id) => if has_id(before, id@) {
            &&& r matches Some(landed) && landed@ == id@
            &&& exists|k: int| #![trigger first_with_id(before, id@, k)] first_with_id(before, id@, k) && after == before.update(k, apply_update(before[k], header_on, dots, diff))
        } else {
            r is None && after == before
        },
        SectionTarget::Checkout(checkout) => if exists|d: int| first_declaring(before, checkout@, d) {
            exists|d: int, k: int| #![trigger first_declaring(before, checkout@, d), first_with_id(before, before[d].id@, k)]
                first_declaring(before, checkout@, d) && first_with_id(before, before[d].id@, k)
                && (r matches Some(landed) && landed@ == before[d].id@)
                && after == before.update(k, apply_update(before[k], header_on, dots, diff))
        } else {
            exists|m: Section| #![trigger materialized_section(m.id@, checkout@, m)]
                materialized_section(m.id@, checkout@, m) && fresh_id(before, m.id@)
                && (r matches Some(landed) && landed@ == m.id@)
                && after == before.push(apply_update(m, header_on, dots, diff))
        },
    }
}

/// A second update aimed at the same checkout lands on the section the
/// first one landed on, materializing nothing more: a checkout's Branch
/// section, once found or created, stays the one its updates reach.
pub proof fn law_checkout_updates_reach_one_section(
    before: Seq<Section>,
    mid: Seq<Section>,
    after: Seq<Section>,
    checkout: String,
    first: (Option<bool>, Option<bool>, Option<bool>),
    second: (Option<bool>, Option<bool>, Option<bool>),
    r1: Option<String>,
    r2: Option<String>,
)
    requires
        update_section_post(before, mid, SectionTarget::Checkout(checkout), first.0, first.1, first.2, r1),
        update_section_post(mid, after, SectionTarget::Checkout(checkout), second.0, second.1, second.2, r2),
    ensures
        r1 is Some,
        r2 is Some,
        r1.unwrap()@ == r2.unwrap()@,
        after.len() == mid.len(),
{
    let c = checkout@;
    if exists|d: int| first_declaring(before, c, d) {
        let (d, k) = choose|d: int, k: int| #![trigger first_declaring(before, c, d), first_with_id(before, before[d].id@, k)]
            first_declaring(before, c, d) && first_with_id(before, before[d].id@, k)
            && (r1 matches Some(landed) && landed@ == before[d].id@)
            && mid == before.update(k, apply_update(before[k], first.0, first.1, first.2));
        assert forall|j: int| 0 <= j < mid.len() implies (#[trigger] mid[j]).id@ == before[j].id@
            && mid[j].children == before[j].children by {
            if j == k {
                assert(mid[j] == apply_update(before[k], first.0, first.1, first.2));
            }
        }
        assert forall|j: int| 0 <= j < mid.len() implies declares(#[trigger] mid[j], c) == declares(before[j], c) by {
            assert(mid[j].children == before[j].children);
        }
        assert(first_declaring(mid, c, d));
    } else {
        let m = choose|m: Section| #![trigger materialized_section(m.id@, c, m)]
            materialized_section(m.id@, c, m) && fresh_id(before, m.id@)
            && (r1 matches Some(landed) && landed@ == m.id@)
            && mid == before.push(apply_update(m, first.0, first.1, first.2));
        let n = before.len() as int;
        assert(mid[n] == apply_update(m, first.0, first.1, first.2));
        assert(child_names_checkout(mid[n].children@[0], c));
        assert(declares(mid[n], c));
        assert forall|j: int| 0 <= j < n implies !declares(#[trigger] mid[j], c) by {
            assert(mid[j] == before[j]);
            if declares(before[j], c) {
                assert(exists|d: int| first_declaring(before, c, d)) by {
                    lemma_first_declaring_exists(before, c, j);
                }
            }
        }
        assert(first_declaring(mid, c, n));
    }
    let (d2, k2) = choose|d: int, k: int| #![trigger first_declaring(mid, c, d), first_with_id(mid, mid[d].id@, k)]
        first_declaring(mid, c, d) && first_with_id(mid, mid[d].id@, k)
        && (r2 matches Some(landed) && landed@ == mid[d].id@)
        && after == mid.update(k, apply_update(mid[k], second.0, second.1, second.2));
    if exists|d: int| first_declaring(before, c, d) {
        let d = choose|d: int| first_declaring(before, c, d);
        lemma_first_declaring_unique(mid, c, d, d2);
    } else {
        lemma_first_declaring_unique(mid, c, before.len() as int, d2);
    }
}

/// Some section declaring `checkout` at `j` means a first one exists.
proof fn lemma_first_declaring_exists(layout: Seq<Section>, checkout: Seq<char>, j: int)
    requires
        0 <= j < layout.len(),
        declares(layout[j], checkout),
    ensures
        exists|d: int| first_declaring(layout, checkout, d),
    decreases j,
{
    if forall|i: int| 0 <= i < j ==> !declares(#[trigger] layout[i], checkout) {
        assert(first_declaring(layout, checkout, j));
    } else {
        let i = choose|i: int| 0 <= i < j && declares(#[trigger] layout[i], checkout);
        lemma_first_declaring_exists(layout, checkout, i);
    }
}

/// There is only one first declaring section.
proof fn lemma_first_declaring_unique(layout: Seq<Section>, checkout: Seq<char>, a: int, b: int)
    requires
        first_declaring(layout, checkout, a),
        first_declaring(layout, checkout, b),
    ensures
        a == b,
{
    if a < b {
        assert(!declares(layout[a], checkout));
    } else if b < a {
        assert(!declares(layout[b], checkout));
    }
}

/// Applies the update to the section `target` names, taking the seed of a
/// materialized section's id from the clock; see `update_section_with_seed`.
pub fn update_section(
    layout: &mut Vec<Section>,
    target: &SectionTarget,
    header_on: Option<bool>,
    dots: Option<bool>,
    diff: Option<bool>,
) -> (r: Option<String>)
    ensures
        update_section_post(old(layout)@, final(layout)@, *target, header_on, dots, diff, r),
{
    let seed = generated_section_name_seed();
    update_section_with_seed(layout, target, header_on, dots, diff, seed)
}

#[verifier::external_type_specification]
#[verifier::external_body]
pub struct ExSystemTime(std::time::SystemTime);

/// Calls `SystemTime::now`: the clock's reading. It depends on the clock,
/// and nothing is claimed of it.
#[verifier::external_body]
fn system_now() -> (r: std::time::SystemTime) {
    std::time::SystemTime::now()
}

/// Calls `SystemTime::duration_since(UNIX_EPOCH)` on `t`: the time from the
/// epoch to `t`, `None` where `t` is before the epoch (the error). The
/// library holds no model of a `SystemTime`, so nothing more is claimed.
#[verifier::external_body]
fn since_unix_epoch(t: &std::time::SystemTime) -> (r: Option<std::time::Duration>) {
    t.duration_since(std::time::UNIX_EPOCH).ok()
}

/// Calls `Duration::as_micros` on `d`: the whole microseconds it spans.
/// The library holds no model of a `Duration`, so nothing is claimed of
/// the number.
#[verifier::external_body]
fn duration_micros(d: &std::time::Duration) -> (r: u128) {
    d.as_micros()
}

/// Microseconds since the Unix epoch, when the clock reads after it.
fn micros_since_epoch() -> (r: Option<u128>) {
    let now = system_now();
    match since_unix_epoch(&now) {
        Some(d) => Some(duration_micros(&d)),
        None => None,
    }
}

/// The seed a clock reading gives: the microseconds since the epoch,
/// saturated at `u64::MAX`, or 0 for a reading before the epoch.
pub open spec fn seed_of_reading(reading: Option<u128>) -> u64 {
    match reading {
        Some(us) => if us > u64::MAX as u128 { u64::MAX } else { us as u64 },
        None => 0,
    }
}

fn seed_from_reading(reading: Option<u128>) -> (r: u64)
    ensures
        r == seed_of_reading(reading),
{
    match reading {
        Some(us) => if us > u64::MAX as u128 { u64::MAX } else { us as u64 },
        None => 0,
    }
}

/// A seed from the clock: microseconds since the epoch, saturated at
/// `u64::MAX`, or 0 when the clock reads before the epoch.
fn generated_section_name_seed() -> u64 {
    seed_from_reading(micros_since_epoch())
}

/// First word of a generated name.
pub open spec fn adjective(i: int) -> Seq<char> {
    if i == 0 { "amber"@ } else if i == 1 { "brisk"@ } else if i == 2 { "calm"@ } else if i == 3 { "dusty"@ }
    else if i == 4 { "eager"@ } else if i == 5 { "fuzzy"@ } else if i == 6 { "gentle"@ } else if i == 7 { "hollow"@ }
    else if i == 8 { "icy"@ } else if i == 9 { "jolly"@ } else if i == 10 { "keen"@ } else if i == 11 { "lucky"@ }
    else if i == 12 { "mellow"@ } else if i == 13 { "nimble"@ } else if i == 14 { "quiet"@ } else { "rusty"@ }
}

/// Second word of a generated name.
pub open spec fn noun(i: int) -> Seq<char> {
    if i == 0 { "otter"@ } else if i == 1 { "falcon"@ } else if i == 2 { "maple"@ } else if i == 3 { "river"@ }
    else if i == 4 { "comet"@ } else if i == 5 { "badger"@ } else if i == 6 { "willow"@ } else if i == 7 { "harbor"@ }
    else if i == 8 { "lantern"@ } else if i == 9 { "pebble"@ } else if i == 10 { "meadow"@ } else if i == 11 { "thistle"@ }
    else if i == 12 { "canyon"@ } else if i == 13 { "sparrow"@ } else if i == 14 { "ember"@ } else { "glacier"@ }
}

/// The two-word display name a seed yields: `<adjective>-<noun>`.
pub open spec fn two_word_name(seed: u64) -> Seq<char> {
    adjective((seed % 16) as int) + "-"@ + noun(((seed / 16) % 16) as int)
}

fn adjective_str(i: u64) -> (r: &'static str)
    requires
        i < 16,
    ensures
        r@ == adjective(i as int),
{
    if i == 0 { "amber" } else if i == 1 { "brisk" } else if i == 2 { "calm" } else if i == 3 { "dusty" }
    else if i == 4 { "eager" } else if i == 5 { "fuzzy" } else if i == 6 { "gentle" } else if i == 7 { "hollow" }
    else if i == 8 { "icy" } else if i == 9 { "jolly" } else if i == 10 { "keen" } else if i == 11 { "lucky" }
    else if i == 12 { "mellow" } else if i == 13 { "nimble" } else if i == 14 { "quiet" } else { "rusty" }
}

fn noun_str(i: u64) -> (r: &'static str)
    requires
        i < 16,
    ensures
        r@ == noun(i as int),
{
    if i == 0 { "otter" } else if i == 1 { "falcon" } else if i == 2 { "maple" } else if i == 3 { "river" }
    else if i == 4 { "comet" } else if i == 5 { "badger" } else if i == 6 { "willow" } else if i == 7 { "harbor" }
    else if i == 8 { "lantern" } else if i == 9 { "pebble" } else if i == 10 { "meadow" } else if i == 11 { "thistle" }
    else if i == 12 { "canyon" } else if i == 13 { "sparrow" } else if i == 14 { "ember" } else { "glacier" }
}

/// A random-looking two-word display name for `seed`.
pub fn generated_two_word_name(seed: u64) -> (r: String)
    ensures
        r@ == two_word_name(seed),
{
    let first = concat(adjective_str(seed % 16), "-");
    concat(first.as_str(), noun_str((seed / 16) % 16))
}

/// Lowercase ASCII letters.
pub open spec fn is_lower_word(w: Seq<char>) -> bool {
    w.len() > 0 && forall|i: int| 0 <= i < w.len() ==> 'a' <= #[trigger] w[i] <= 'z'
}

/// Every generated name is two non-empty lowercase ASCII words joined by a
/// single hyphen.
pub proof fn law_generated_names_are_two_words(seed: u64)
    ensures
        exists|a: Seq<char>, b: Seq<char>| is_lower_word(a) && is_lower_word(b) && two_word_name(seed) == a + "-"@ + b,
{
    reveal_strlit("amber"); reveal_strlit("brisk"); reveal_strlit("calm"); reveal_strlit("dusty");
    reveal_strlit("eager"); reveal_strlit("fuzzy"); reveal_strlit("gentle"); reveal_strlit("hollow");
    reveal_strlit("icy"); reveal_strlit("jolly"); reveal_strlit("keen"); reveal_strlit("lucky");
    reveal_strlit("mellow"); reveal_strlit("nimble"); reveal_strlit("quiet"); reveal_strlit("rusty");
    reveal_strlit("otter"); reveal_strlit("falcon"); reveal_strlit("maple"); reveal_strlit("river");
    reveal_strlit("comet"); reveal_strlit("badger"); reveal_strlit("willow"); reveal_strlit("harbor");
    reveal_strlit("lantern"); reveal_strlit("pebble"); reveal_strlit("meadow"); reveal_strlit("thistle");
    reveal_strlit("canyon"); reveal_strlit("sparrow"); reveal_strlit("ember"); reveal_strlit("glacier");
    let a = adjective((seed % 16) as int);
    let b = noun(((seed / 16) % 16) as int);
    assert(is_lower_word(a));
    assert(is_lower_word(b));
    assert(two_word_name(seed) == a + "-"@ + b);
}

/// The section `create_section` appends.
pub open spec fn created_section(s: Section, id: Seq<char>, kind: SectionKind, name: Seq<char>) -> bool {
    &&& s.id@ == id
    &&& s.kind == kind
    &&& s.name matches Some(n) && n@ == name
    &&& s.header_on
    &&& s.parts == SectionParts::spec_default()
    &&& s.children@.len() == 0
}

/// Appends a new empty `kind` section named `name`, or a generated
/// two-word name when `name` is `None`, with an id no other section
/// carries; returns that id.
pub fn create_section_with_seed(layout: &mut Vec<Section>, kind: SectionKind, name: Option<String>, seed: u64) -> (r: String)
    ensures
        fresh_id(old(layout)@, r@),
        final(layout)@.len() == old(layout)@.len() + 1,
        final(layout)@.drop_last() == old(layout)@,
        created_section(final(layout)@.last(), r@, kind, match name {
            Some(n) => n@,
            None => two_word_name(seed),
        }),
{
    let id = generate_section_id(layout, seed);
    let name = match name {
        Some(n) => n,
        None => generated_two_word_name(seed),
    };
    layout.push(Section {
        id: owned(id.as_str()),
        kind,
        name: Some(name),
        header_on: true,
        parts: SectionParts::default(),
        children: Vec::new(),
    });
    assert(layout@.drop_last() =~= old(layout)@);
    id
}

/// `create_section_with_seed` seeded from the clock.
pub fn create_section(layout: &mut Vec<Section>, kind: SectionKind, name: Option<String>) -> (r: String)
    ensures
        fresh_id(old(layout)@, r@),
        final(layout)@.len() == old(layout)@.len() + 1,
        final(layout)@.drop_last() == old(layout)@,
        match name {
            Some(n) => created_section(final(layout)@.last(), r@, kind, n@),
            None => exists|seed: u64| created_section(final(layout)@.last(), r@, kind, two_word_name(seed)),
        },
{
    let seed = generated_section_name_seed();
    create_section_with_seed(layout, kind, name, seed)
}

/// A project of `projects.yml`.
#[derive(Debug, Clone, PartialEq, Eq)]
pub struct Project {
    pub name: Option<String>,
    /// The persisted section layout, when the project declares one.
    pub layout: Option<Vec<Section>>,
    pub auto_join: bool,
}

/// A project under its slug.
#[derive(Debug, Clone, PartialEq, Eq)]
pub struct ProjectEntry {
    pub slug: String,
    pub project: Project,
}

/// The loaded `projects.yml`: projects in file order, each slug once.
#[derive(Debug, Clone, PartialEq, Eq)]
pub struct ProjectsStore {
    pub projects: Vec<ProjectEntry>,
}

/// `k` is the first project under `slug`.
pub open spec fn first_with_slug(ps: Seq<ProjectEntry>, slug: Seq<char>, k: int) -> bool {
    &&& 0 <= k < ps.len()
    &&& ps[k].slug@ == slug
    &&& forall|j: int| 0 <= j < k ==> (#[trigger] ps[j]).slug@ != slug
}

/// The Branch section of project `slug` declaring `checkout`: the first
/// such section of the project's layout.
pub open spec fn declared_section(store: ProjectsStore, slug: Seq<char>, checkout: Seq<char>) -> Option<Section> {
    if exists|k: int| first_with_slug(store.projects@, slug, k) {
        let k = choose|k: int| first_with_slug(store.projects@, slug, k);
        match store.projects@[k].project.layout {
            Some(layout) => if exists|d: int| first_declaring(layout@, checkout, d) {
                Some(layout@[choose|d: int| first_declaring(layout@, checkout, d)])
            } else {
                None
            },
            None => None,
        }
    } else {
        None
    }
}

/// The Branch section project `slug` declares for `checkout_key`, read
/// straight from the store.
pub fn declared_section_for_checkout<'a>(projects: &'a ProjectsStore, slug: &str, checkout_key: &str) -> (r: Option<&'a Section>)
    ensures
        match r {
            Some(s) => declared_section(*projects, slug@, checkout_key@) == Some(*s),
            None => declared_section(*projects, slug@, checkout_key@) is None,
        },
{
    let ps = &projects.projects;
    let mut i: usize = 0;
    while i < ps.len()
        invariant
            i <= ps.len(),
            ps@ == projects.projects@,
            forall|j: int| 0 <= j < i ==> (#[trigger] ps@[j]).slug@ != slug@,
        decreases ps.len() - i,
    {
        if str_eq(ps[i].slug.as_str(), slug) {
            proof {
                assert(first_with_slug(ps@, slug@, i as int));
                let k = choose|k: int| first_with_slug(ps@, slug@, k);
                if k < i {
                    assert(ps@[k].slug@ != slug@);
                }
                if k > i {
                    assert(ps@[i as int].slug@ != slug@);
                }
            }
            match &ps[i].project.layout {
                Some(layout) => {
                    match find_declaring(layout.as_slice(), checkout_key) {
                        Some(d) => {
                            proof {
                                let e = choose|e: int| first_declaring(layout@, checkout_key@, e);
                                if e < d {
                                    assert(!declares(layout@[e], checkout_key@));
                                }
                                if e > d {
                                    assert(!declares(layout@[d as int], checkout_key@));
                                }
                            }
                            return Some(&layout[d]);
                        },
                        None => {
                            return None;
                        },
                    }
                },
                None => {
                    return None;
                },
            }
        }
        i = i + 1;
    }
    None
}

} // verus!
