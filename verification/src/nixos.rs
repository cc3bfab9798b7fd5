//! Decisions of the `os` actions: revision stamping, rollback targets and
//! deletion checks.
use vstd::prelude::*;
use crate::command::CommandSpec;
use crate::generations::{find_by_id, find_generation};
use crate::nix::{
    generation_link_name, link_name_spec, profiles_dir_spec, str_option_view, system_profiles_dir,
    Generation,
};
use crate::log::{warn, LogLevel, LogMessage};
use crate::paths::{join_spec, join_str};
use crate::text::{
    append_chars, decimal, eq_ignore_ascii_case, eq_ignore_ascii_case_spec, format_u64, from_chars,
    matches_at, occurs_at, parse_u64, parse_u64_spec, slice_chars, to_chars, trim_chars, trim_spec,
};

verus! {

/// The text that introduces the configuration revision in `nix.nix`.
pub open spec fn revision_marker() -> Seq<char> {
    "system.configurationRevision = \""@
}

/// The first position at or after `k` that holds a `"` or ends a line.
pub open spec fn stop_from(s: Seq<char>, k: int) -> Option<int>
    decreases s.len() - k,
{
    if k < 0 || k >= s.len() {
        None
    } else if s[k] == '"' || s[k] == '\n' {
        Some(k)
    } else {
        stop_from(s, k + 1)
    }
}

/// A stop that [`stop_from`] finds lies at or after `k`, inside `s`, and
/// holds a `"` or a line end.
pub proof fn lemma_stop_from(s: Seq<char>, k: int)
    requires
        0 <= k,
    ensures
        stop_from(s, k) matches Some(j) ==> k <= j < s.len() && (s[j] == '"' || s[j] == '\n'),
    decreases s.len() - k,
{
    if k < s.len() && !(s[k] == '"' || s[k] == '\n') {
        lemma_stop_from(s, k + 1);
    }
}

/// Where the configuration revision stands in `s`, looking from position `i`
/// on: the first line holding the marker whose text after the marker has a
/// `"` before the line ends; the revision is the text between the marker and
/// that `"`, given as its start and end positions. Only the first marker of a
/// line counts, as the scan resumes at the next line.
pub open spec fn revision_span_from(s: Seq<char>, i: int) -> Option<(int, int)>
    decreases s.len() - i,
{
    if i < 0 || i >= s.len() {
        None
    } else if occurs_at(s, revision_marker(), i) {
        match stop_from(s, i + 32) {
            None => None,
            Some(k) => if s[k] == '"' {
                Some((i + 32, k))
            } else {
                proof {
                    lemma_stop_from(s, i + 32);
                }
                revision_span_from(s, k + 1)
            },
        }
    } else {
        revision_span_from(s, i + 1)
    }
}

proof fn lemma_span_bounds(s: Seq<char>, i: int)
    requires
        0 <= i,
    ensures
        revision_span_from(s, i) matches Some((a, b)) ==> i + 32 <= a <= b < s.len() && s[b] == '"'
            && occurs_at(s, revision_marker(), a - 32),
    decreases s.len() - i,
{
    if 0 <= i < s.len() {
        if occurs_at(s, revision_marker(), i) {
            lemma_stop_from(s, i + 32);
            match stop_from(s, i + 32) {
                Some(k) => if s[k] != '"' {
                    lemma_span_bounds(s, k + 1);
                },
                None => {},
            }
        } else {
            lemma_span_bounds(s, i + 1);
        }
    }
}

proof fn lemma_stop_prefix(s: Seq<char>, t: Seq<char>, k: int, n: int)
    requires
        0 <= k,
        n <= s.len(),
        n <= t.len(),
        s.take(n) == t.take(n),
        stop_from(s, k) matches Some(j) && j < n,
    ensures
        stop_from(t, k) == stop_from(s, k),
    decreases s.len() - k,
{
    lemma_stop_from(s, k);
    assert(s[k] == s.take(n)[k]);
    assert(t[k] == t.take(n)[k]);
    if !(s[k] == '"' || s[k] == '\n') {
        lemma_stop_prefix(s, t, k + 1, n);
    }
}

proof fn lemma_stop_over(t: Seq<char>, k: int, e: int)
    requires
        0 <= k <= e < t.len(),
        t[e] == '"',
        forall|j: int| k <= j < e ==> t[j] != '"' && t[j] != '\n',
    ensures
        stop_from(t, k) == Some(e),
    decreases e - k,
{
    if k < e {
        lemma_stop_over(t, k + 1, e);
    }
}

proof fn lemma_span_stamped(s: Seq<char>, t: Seq<char>, i: int, a: int, b: int, e: int)
    requires
        0 <= i,
        revision_span_from(s, i) == Some((a, b)),
        a <= t.len(),
        s.take(a) == t.take(a),
        a <= e < t.len(),
        t[e] == '"',
        forall|j: int| a <= j < e ==> t[j] != '"' && t[j] != '\n',
    ensures
        revision_span_from(t, i) == Some((a, e)),
    decreases s.len() - i,
{
    lemma_span_bounds(s, i);
    let m = revision_marker();
    assert(m.len() == 32) by {
        reveal_strlit("system.configurationRevision = \"");
    }
    if i + 32 <= a {
        assert(s.subrange(i, i + 32) == s.take(a).subrange(i, i + 32));
        assert(t.subrange(i, i + 32) == t.take(a).subrange(i, i + 32));
    }
    assert(occurs_at(s, m, i) == occurs_at(t, m, i));
    assert(i < t.len());
    if occurs_at(s, m, i) {
        lemma_stop_from(s, i + 32);
        let k = stop_from(s, i + 32)->0;
        if s[k] == '"' {
            assert(a == i + 32);
            lemma_stop_over(t, a, e);
        } else {
            lemma_span_bounds(s, k + 1);
            assert(k + 1 + 32 <= a);
            lemma_stop_prefix(s, t, i + 32, a);
            assert(s[k] == s.take(a)[k]);
            assert(t[k] == t.take(a)[k]);
            lemma_span_stamped(s, t, k + 1, a, b, e);
        }
    } else {
        lemma_span_stamped(s, t, i + 1, a, b, e);
    }
}

/// Reading back a stamped revision gives the date that was stamped, when the
/// date holds no `"` and no line end.
pub proof fn lemma_stamp_read_back(content: Seq<char>, date: Seq<char>)
    requires
        revision_span_from(content, 0) is Some,
        forall|j: int| 0 <= j < date.len() ==> date[j] != '"' && date[j] != '\n',
    ensures
        stamp_spec(content, date) matches Some(t) && revision_spec(t) == Some(date),
{
    lemma_span_bounds(content, 0);
    let (a, b) = revision_span_from(content, 0)->0;
    let t = content.take(a) + date + content.skip(b);
    let e = a + date.len();
    assert(t.take(a) =~= content.take(a));
    assert(t[e] == content[b]);
    assert forall|j: int| a <= j < e implies t[j] != '"' && t[j] != '\n' by {
        assert(t[j] == date[j - a]);
    }
    lemma_span_stamped(content, t, 0, a, b, e);
    assert(t.subrange(a, e) =~= date);
}

/// The configuration revision written in `content`: the value between the
/// quotes of the first `system.configurationRevision = "..."` on a line;
/// nothing when there is no such line.
pub open spec fn revision_spec(content: Seq<char>) -> Option<Seq<char>> {
    match revision_span_from(content, 0) {
        Some((a, b)) => Some(content.subrange(a, b)),
        None => None,
    }
}

/// `content` with its configuration revision set to `date`; nothing when it
/// has no revision line.
pub open spec fn stamp_spec(content: Seq<char>, date: Seq<char>) -> Option<Seq<char>> {
    match revision_span_from(content, 0) {
        Some((a, b)) => Some(content.take(a) + date + content.skip(b)),
        None => None,
    }
}

/// Where the configuration revision stands in `cs` (see [`revision_span_from`]).
fn revision_span(cs: &[char]) -> (r: Option<(usize, usize)>)
    ensures
        match revision_span_from(cs@, 0) {
            Some((a, b)) => r matches Some((x, y)) && x == a && y == b && 0 <= a <= b <= cs@.len(),
            None => r is None,
        },
{
    let marker = to_chars("system.configurationRevision = \"");
    proof {
        reveal_strlit("system.configurationRevision = \"");
    }
    assert(marker@.len() == 32);
    let mut i: usize = 0;
    while i < cs.len()
        invariant
            i <= cs.len(),
            marker@ == revision_marker(),
            marker@.len() == 32,
            revision_span_from(cs@, 0) == revision_span_from(cs@, i as int),
        decreases cs.len() - i,
    {
        if matches_at(cs, marker.as_slice(), i) {
            let a: usize = i + 32;
            let mut k: usize = a;
            while k < cs.len() && cs[k] != '"' && cs[k] != '\n'
                invariant
                    a <= k <= cs.len(),
                    stop_from(cs@, a as int) == stop_from(cs@, k as int),
                decreases cs.len() - k,
            {
                k += 1;
            }
            if k >= cs.len() {
                return None;
            }
            if cs[k] == '"' {
                return Some((a, k));
            }
            i = k + 1;
        } else {
            i += 1;
        }
    }
    None
}

/// The configuration revision currently written in `content` (see
/// [`revision_spec`]), or nothing when there is no revision line.
pub fn extract_revision(content: &str) -> (r: String)
    ensures
        r@ == (match revision_spec(content@) {
            Some(v) => v,
            None => Seq::<char>::empty(),
        }),
{
    let cs = to_chars(content);
    match revision_span(cs.as_slice()) {
        Some((a, b)) => {
            let v = slice_chars(cs.as_slice(), a, b);
            from_chars(v.as_slice())
        },
        None => String::new(),
    }
}

/// The new text of `nix.nix` and whether it differs from the old one.
pub struct RevisionUpdate {
    pub content: String,
    pub changed: bool,
}

/// Stamps `date` as the configuration revision (see [`stamp_spec`]); without
/// a revision line the content stays as it is.
pub fn apply_revision(content: &str, date: &str) -> (r: RevisionUpdate)
    ensures
        r.content@ == (match stamp_spec(content@, date@) {
            Some(t) => t,
            None => content@,
        }),
        r.changed == (r.content@ != content@),
{
    let cs = to_chars(content);
    match revision_span(cs.as_slice()) {
        Some((a, b)) => {
            let mut v = slice_chars(cs.as_slice(), 0, a);
            append_chars(&mut v, to_chars(date).as_slice());
            append_chars(&mut v, slice_chars(cs.as_slice(), b, cs.len()).as_slice());
            assert(v@ =~= content@.take(a as int) + date@ + content@.skip(b as int));
            let updated = from_chars(v.as_slice());
            let previous = content.to_string();
            let changed = !(updated == previous);
            RevisionUpdate { content: updated, changed }
        },
        None => RevisionUpdate { content: content.to_string(), changed: false },
    }
}

/// Why a rollback cannot proceed.
#[derive(Debug, Clone, Copy, PartialEq, Eq, Structural)]
pub enum RollbackError {
    NoGenerations,
    NotFound(u64),
    NoPrevious,
}

/// The number of the first generation from position `i` on that is current.
pub open spec fn current_id_from(gens: Seq<Generation>, i: int) -> Option<u64>
    decreases gens.len() - i,
{
    if i < 0 || i >= gens.len() {
        None
    } else if gens[i].is_current {
        Some(gens[i].id)
    } else {
        current_id_from(gens, i + 1)
    }
}

/// Whether a generation number lies below `bound` (any number does when there is no bound).
pub open spec fn below(bound: Option<u64>, id: u64) -> bool {
    match bound {
        Some(b) => id < b,
        None => true,
    }
}

/// The greatest generation number in `gens` below `bound`.
pub open spec fn greatest_below(gens: Seq<Generation>, bound: Option<u64>) -> Option<u64>
    decreases gens.len(),
{
    if gens.len() == 0 {
        None
    } else {
        let rest = greatest_below(gens.drop_last(), bound);
        let id = gens.last().id;
        if !below(bound, id) {
            rest
        } else {
            match rest {
                Some(m) => if id > m {
                    Some(id)
                } else {
                    Some(m)
                },
                None => Some(id),
            }
        }
    }
}

/// The generation to roll back to: the one numbered `to` when given;
/// otherwise the previous one, the greatest number below that of the current
/// generation (the greatest number of all when none is current).
pub open spec fn rollback_target_spec(gens: Seq<Generation>, to: Option<u64>) -> Result<
    u64,
    RollbackError,
> {
    if gens.len() == 0 {
        Err(RollbackError::NoGenerations)
    } else {
        match to {
            Some(id) => if find_generation(gens, id) is Some {
                Ok(id)
            } else {
                Err(RollbackError::NotFound(id))
            },
            None => match greatest_below(gens, current_id_from(gens, 0)) {
                Some(id) => Ok(id),
                None => Err(RollbackError::NoPrevious),
            },
        }
    }
}

/// The number of the generation to roll back to.
pub fn rollback_target(gens: &[Generation], to: Option<u64>) -> (r: Result<u64, RollbackError>)
    ensures
        r == rollback_target_spec(gens@, to),
{
    if gens.len() == 0 {
        return Err(RollbackError::NoGenerations);
    }
    match to {
        Some(id) => match find_by_id(gens, id) {
            Some(_) => Ok(id),
            None => Err(RollbackError::NotFound(id)),
        },
        None => {
            let mut i: usize = 0;
            while i < gens.len() && !gens[i].is_current
                invariant
                    i <= gens.len(),
                    current_id_from(gens@, 0) == current_id_from(gens@, i as int),
                decreases gens.len() - i,
            {
                i += 1;
            }
            let current: Option<u64> = if i < gens.len() {
                Some(gens[i].id)
            } else {
                None
            };
            assert(current == current_id_from(gens@, 0));
            let mut best: Option<u64> = None;
            let mut k: usize = 0;
            assert(gens@.take(0) =~= Seq::<Generation>::empty());
            while k < gens.len()
                invariant
                    k <= gens.len(),
                    best == greatest_below(gens@.take(k as int), current),
                decreases gens.len() - k,
            {
                assert(gens@.take(k + 1).drop_last() =~= gens@.take(k as int));
                assert(gens@.take(k + 1).last() == gens@[k as int]);
                let id = gens[k].id;
                let is_below = match current {
                    Some(c) => id < c,
                    None => true,
                };
                if is_below {
                    best = match best {
                        Some(m) => if id > m {
                            Some(id)
                        } else {
                            Some(m)
                        },
                        None => Some(id),
                    };
                }
                k += 1;
            }
            assert(gens@.take(k as int) =~= gens@);
            match best {
                Some(id) => Ok(id),
                None => Err(RollbackError::NoPrevious),
            }
        },
    }
}

/// The message of a rollback refusal.
pub open spec fn rollback_message_spec(e: RollbackError) -> Seq<char> {
    match e {
        RollbackError::NoGenerations => "No generations found"@,
        RollbackError::NotFound(id) => "Generation "@ + decimal(id as nat) + " not found"@,
        RollbackError::NoPrevious => "No previous generation to roll back to"@,
    }
}

impl RollbackError {
    /// The message shown for this refusal.
    pub fn message(&self) -> (r: String)
        ensures
            r@ == rollback_message_spec(*self),
    {
        match self {
            RollbackError::NoGenerations => "No generations found".to_string(),
            RollbackError::NotFound(id) => "Generation ".to_string().concat(
                format_u64(*id).as_str(),
            ).concat(" not found"),
            RollbackError::NoPrevious => "No previous generation to roll back to".to_string(),
        }
    }
}

/// Why a deletion request is refused.
#[derive(Debug, Clone, Copy, PartialEq, Eq, Structural)]
pub enum DeleteError {
    Current(u64),
    NotFound(u64),
}

/// The check of the requested numbers from position `i` on: the first one
/// without a generation, or whose generation is current, is refused.
pub open spec fn delete_check_from(gens: Seq<Generation>, ids: Seq<u64>, i: int) -> Result<
    (),
    DeleteError,
>
    decreases ids.len() - i,
{
    if i < 0 || i >= ids.len() {
        Ok(())
    } else {
        match find_generation(gens, ids[i]) {
            Some(g) => if g.is_current {
                Err(DeleteError::Current(ids[i]))
            } else {
                delete_check_from(gens, ids, i + 1)
            },
            None => Err(DeleteError::NotFound(ids[i])),
        }
    }
}

/// Checks the generation numbers given for deletion, in order.
pub fn validate_delete_ids(gens: &[Generation], ids: &[u64]) -> (r: Result<(), DeleteError>)
    ensures
        r == delete_check_from(gens@, ids@, 0),
{
    let mut i: usize = 0;
    while i < ids.len()
        invariant
            i <= ids.len(),
            delete_check_from(gens@, ids@, 0) == delete_check_from(gens@, ids@, i as int),
        decreases ids.len() - i,
    {
        match find_by_id(gens, ids[i]) {
            Some(j) => {
                if gens[j].is_current {
                    return Err(DeleteError::Current(ids[i]));
                }
            },
            None => {
                return Err(DeleteError::NotFound(ids[i]));
            },
        }
        i += 1;
    }
    Ok(())
}

/// The message of a deletion refusal.
pub open spec fn delete_message_spec(e: DeleteError) -> Seq<char> {
    match e {
        DeleteError::Current(id) => "Cannot delete current generation "@ + decimal(id as nat),
        DeleteError::NotFound(id) => "Generation "@ + decimal(id as nat) + " not found"@,
    }
}

impl DeleteError {
    /// The message shown for this refusal.
    pub fn message(&self) -> (r: String)
        ensures
            r@ == delete_message_spec(*self),
    {
        match self {
            DeleteError::Current(id) => "Cannot delete current generation ".to_string().concat(
                format_u64(*id).as_str(),
            ),
            DeleteError::NotFound(id) => "Generation ".to_string().concat(
                format_u64(*id).as_str(),
            ).concat(" not found"),
        }
    }
}

/// How many listed generations have a number greater than `id`.
pub open spec fn count_newer(gens: Seq<Generation>, id: u64) -> nat
    decreases gens.len(),
{
    if gens.len() == 0 {
        0
    } else {
        count_newer(gens.drop_last(), id) + if gens.last().id > id {
            1nat
        } else {
            0nat
        }
    }
}

/// `a` comes strictly before `b` in character order.
pub open spec fn text_before(a: Seq<char>, b: Seq<char>) -> bool
    decreases a.len(),
{
    if a.len() == 0 {
        b.len() > 0
    } else if b.len() == 0 {
        false
    } else if a[0] != b[0] {
        a[0] < b[0]
    } else {
        text_before(a.drop_first(), b.drop_first())
    }
}

/// Whether the options spare generation `id` from deletion: it is one of the
/// `keep` newest listed generations (fewer than `keep` have a greater number),
/// or its listed date (`YYYY-MM-DD HH:MM`, which orders as text) is after
/// `cutoff`, the time `keep_since` ago.
pub open spec fn spared(gens: Seq<Generation>, id: u64, keep: Option<u64>, cutoff: Option<Seq<char>>) -> bool {
    ||| keep matches Some(k) && count_newer(gens, id) < k
    ||| cutoff matches Some(c) && find_generation(gens, id) matches Some(g) && text_before(c, g.date@)
}

/// The numbers of `ids` that the options do not spare, in order.
pub open spec fn unspared(gens: Seq<Generation>, ids: Seq<u64>, keep: Option<u64>, cutoff: Option<Seq<char>>) -> Seq<u64>
    decreases ids.len(),
{
    if ids.len() == 0 {
        seq![]
    } else {
        unspared(gens, ids.drop_last(), keep, cutoff) + if spared(gens, ids.last(), keep, cutoff) {
            Seq::<u64>::empty()
        } else {
            seq![ids.last()]
        }
    }
}

/// Every number kept by [`unspared`] is one of `ids` and is not spared.
pub proof fn lemma_unspared(gens: Seq<Generation>, ids: Seq<u64>, keep: Option<u64>, cutoff: Option<Seq<char>>)
    ensures
        forall|j: int|
            0 <= j < unspared(gens, ids, keep, cutoff).len() ==> ids.contains(
                #[trigger] unspared(gens, ids, keep, cutoff)[j],
            ) && !spared(gens, unspared(gens, ids, keep, cutoff)[j], keep, cutoff),
    decreases ids.len(),
{
    if ids.len() > 0 {
        let t = ids.drop_last();
        lemma_unspared(gens, t, keep, cutoff);
        let u = unspared(gens, ids, keep, cutoff);
        let ut = unspared(gens, t, keep, cutoff);
        assert forall|j: int| 0 <= j < u.len() implies ids.contains(#[trigger] u[j]) && !spared(
            gens,
            u[j],
            keep,
            cutoff,
        ) by {
            if j < ut.len() {
                assert(u[j] == ut[j]);
                let k = choose|k: int| 0 <= k < t.len() && t[k] == ut[j];
                assert(ids[k] == t[k]);
            } else {
                assert(u[j] == ids.last());
                assert(ids[ids.len() - 1] == ids.last());
            }
        }
    }
}

/// The seconds in one unit of a duration: `s`, `m`, `h`, `d` or `w`.
pub open spec fn unit_seconds(c: char) -> Option<u64> {
    if c == 's' {
        Some(1)
    } else if c == 'm' {
        Some(60)
    } else if c == 'h' {
        Some(3600)
    } else if c == 'd' {
        Some(86400)
    } else if c == 'w' {
        Some(604800)
    } else {
        None
    }
}

/// The seconds in a duration written as a number and a unit (`4d`, `1w`);
/// nothing for any other text, or one too long for 64 bits.
pub open spec fn duration_seconds(t: Seq<char>) -> Option<u64> {
    if t.len() == 0 {
        None
    } else {
        match (unit_seconds(t.last()), parse_u64_spec(t.drop_last())) {
            (Some(u), Some(n)) => if n * u <= u64::MAX {
                Some((n * u) as u64)
            } else {
                None
            },
            _ => None,
        }
    }
}

/// The warning given when `keep_since` is not a duration: it is then ignored.
pub open spec fn keep_since_warning_spec(d: Seq<char>) -> Seq<char> {
    "Ignoring --keep-since "@ + d + ": not a duration"@
}

/// The warning given when `keep_since` is not a duration.
pub fn keep_since_warning(d: &str) -> (m: LogMessage)
    ensures
        m.level == LogLevel::Warn,
        m.text@ == keep_since_warning_spec(d@),
{
    warn("Ignoring --keep-since ".to_string().concat(d).concat(": not a duration").as_str())
}

/// The seconds in a duration such as `4d` or `1w`.
pub fn parse_duration(t: &str) -> (r: Option<u64>)
    ensures
        r == duration_seconds(t@),
{
    let cs = to_chars(t);
    if cs.len() == 0 {
        return None;
    }
    let c = cs[cs.len() - 1];
    let unit: u64 = if c == 's' {
        1
    } else if c == 'm' {
        60
    } else if c == 'h' {
        3600
    } else if c == 'd' {
        86400
    } else if c == 'w' {
        604800
    } else {
        return None;
    };
    let digits = slice_chars(cs.as_slice(), 0, cs.len() - 1);
    assert(digits@ =~= t@.drop_last());
    match parse_u64(from_chars(digits.as_slice()).as_str()) {
        Some(n) => n.checked_mul(unit),
        None => None,
    }
}

/// How many listed generations have a number greater than `id`.
fn newer_count(gens: &[Generation], id: u64) -> (r: usize)
    ensures
        r == count_newer(gens@, id),
{
    let mut n: usize = 0;
    let mut i: usize = 0;
    while i < gens.len()
        invariant
            i <= gens.len(),
            n == count_newer(gens@.take(i as int), id),
            n <= i,
        decreases gens.len() - i,
    {
        assert(gens@.take(i + 1).drop_last() =~= gens@.take(i as int));
        assert(gens@.take(i + 1).last() == gens@[i as int]);
        if gens[i].id > id {
            n += 1;
        }
        i += 1;
    }
    assert(gens@.take(i as int) =~= gens@);
    n
}

/// Whether `a` comes strictly before `b` in character order.
fn before(a: &[char], b: &[char]) -> (r: bool)
    ensures
        r == text_before(a@, b@),
{
    let mut i: usize = 0;
    assert(a@.skip(0) =~= a@);
    assert(b@.skip(0) =~= b@);
    while i < a.len() && i < b.len() && a[i] == b[i]
        invariant
            i <= a.len(),
            i <= b.len(),
            text_before(a@, b@) == text_before(a@.skip(i as int), b@.skip(i as int)),
        decreases a.len() - i,
    {
        assert(a@.skip(i as int).drop_first() =~= a@.skip(i + 1));
        assert(b@.skip(i as int).drop_first() =~= b@.skip(i + 1));
        assert(a@.skip(i as int)[0] == a@[i as int]);
        assert(b@.skip(i as int)[0] == b@[i as int]);
        i += 1;
    }
    if i == a.len() {
        assert(a@.skip(i as int).len() == 0);
        i < b.len()
    } else if i == b.len() {
        assert(b@.skip(i as int).len() == 0);
        false
    } else {
        assert(a@.skip(i as int)[0] == a@[i as int]);
        assert(b@.skip(i as int)[0] == b@[i as int]);
        a[i] < b[i]
    }
}

/// Whether the options spare generation `id` (see [`spared`]).
pub fn is_spared(gens: &[Generation], id: u64, keep: Option<u64>, cutoff: Option<&str>) -> (r: bool)
    ensures
        r == spared(gens@, id, keep, str_option_view(cutoff)),
{
    let by_count = match keep {
        Some(k) => (newer_count(gens, id) as u64) < k,
        None => false,
    };
    if by_count {
        return true;
    }
    match cutoff {
        Some(c) => match find_by_id(gens, id) {
            Some(j) => before(to_chars(c).as_slice(), to_chars(gens[j].date.as_str()).as_slice()),
            None => false,
        },
        None => false,
    }
}

/// The numbers of `ids` that the options do not spare, in order.
pub fn unspared_ids(gens: &[Generation], ids: &[u64], keep: Option<u64>, cutoff: Option<&str>) -> (r: Vec<u64>)
    ensures
        r@ == unspared(gens@, ids@, keep, str_option_view(cutoff)),
{
    let mut r: Vec<u64> = Vec::new();
    let mut i: usize = 0;
    while i < ids.len()
        invariant
            i <= ids.len(),
            r@ == unspared(gens@, ids@.take(i as int), keep, str_option_view(cutoff)),
        decreases ids.len() - i,
    {
        assert(ids@.take(i + 1).drop_last() =~= ids@.take(i as int));
        assert(ids@.take(i + 1).last() == ids@[i as int]);
        let ghost before_r = r@;
        if !is_spared(gens, ids[i], keep, cutoff) {
            r.push(ids[i]);
        }
        assert(r@ =~= unspared(gens@, ids@.take(i + 1), keep, str_option_view(cutoff)));
        i += 1;
    }
    assert(ids@.take(i as int) =~= ids@);
    r
}

/// The numbers joined with `, `, as `{:?}` writes the inside of a list.
pub open spec fn number_list(ids: Seq<u64>) -> Seq<char>
    decreases ids.len(),
{
    if ids.len() == 0 {
        seq![]
    } else if ids.len() == 1 {
        decimal(ids[0] as nat)
    } else {
        number_list(ids.drop_last()) + ", "@ + decimal(ids.last() as nat)
    }
}

/// The announcement before deleting: `Will delete <n> generation(s): [<ids>]`.
pub open spec fn deletion_notice_spec(ids: Seq<u64>) -> Seq<char> {
    "Will delete "@ + decimal(ids.len()) + " generation(s): ["@ + number_list(ids) + "]"@
}

/// The announcement before deleting the given generations.
pub fn deletion_notice(ids: &[u64]) -> (r: String)
    ensures
        r@ == deletion_notice_spec(ids@),
{
    let mut list = String::new();
    let mut i: usize = 0;
    while i < ids.len()
        invariant
            i <= ids.len(),
            list@ == number_list(ids@.take(i as int)),
        decreases ids.len() - i,
    {
        assert(ids@.take(i + 1).drop_last() =~= ids@.take(i as int));
        assert(ids@.take(i + 1).last() == ids@[i as int]);
        if i > 0 {
            list = list.concat(", ");
        } else {
            assert(list@ =~= Seq::<char>::empty());
        }
        list = list.concat(format_u64(ids[i]).as_str());
        i += 1;
        proof {
            if i == 1 {
                assert(list@ =~= decimal(ids@[0] as nat));
            }
        }
    }
    assert(ids@.take(i as int) =~= ids@);
    "Will delete ".to_string().concat(format_u64(ids.len() as u64).as_str()).concat(
        " generation(s): [",
    ).concat(list.as_str()).concat("]")
}

/// Whether a confirmation answer agrees: once trimmed it is `y` in either case.
pub fn confirms(input: &str) -> (b: bool)
    ensures
        b == eq_ignore_ascii_case_spec(trim_spec(input@), seq!['y']),
{
    let cs = to_chars(input);
    let t = trim_chars(cs.as_slice());
    let mut y: Vec<char> = Vec::new();
    y.push('y');
    assert(y@ =~= seq!['y']);
    eq_ignore_ascii_case(t.as_slice(), y.as_slice())
}

/// The profile link of generation `id`.
pub open spec fn profile_link_spec(id: u64) -> Seq<char> {
    join_spec(profiles_dir_spec(), link_name_spec(id))
}

/// The path of the profile link of generation `id`.
pub fn generation_profile_link(id: u64) -> (r: String)
    ensures
        r@ == profile_link_spec(id),
{
    join_str(system_profiles_dir().as_str(), generation_link_name(id).as_str())
}

proof fn lemma_current_id_from(gens: Seq<Generation>, i: int)
    requires
        0 <= i,
    ensures
        match current_id_from(gens, i) {
            Some(c) => exists|k: int| i <= k < gens.len() && gens[k].id == c && gens[k].is_current,
            None => forall|k: int| i <= k < gens.len() ==> !(#[trigger] gens[k]).is_current,
        },
    decreases gens.len() - i,
{
    if i < gens.len() && !gens[i].is_current {
        lemma_current_id_from(gens, i + 1);
    }
}

proof fn lemma_greatest_below(gens: Seq<Generation>, bound: Option<u64>)
    ensures
        match greatest_below(gens, bound) {
            Some(m) => (exists|k: int| 0 <= k < gens.len() && gens[k].id == m) && below(bound, m)
                && forall|j: int|
                0 <= j < gens.len() && below(bound, (#[trigger] gens[j]).id) ==> gens[j].id <= m,
            None => forall|j: int| 0 <= j < gens.len() ==> !below(bound, (#[trigger] gens[j]).id),
        },
    decreases gens.len(),
{
    if gens.len() > 0 {
        let t = gens.drop_last();
        let n = gens.len() - 1;
        lemma_greatest_below(t, bound);
        assert(gens[n] == gens.last());
        assert forall|j: int| 0 <= j < t.len() implies #[trigger] t[j] == gens[j] by {}
        let g = greatest_below(gens, bound);
        match g {
            Some(m) => {
                if below(bound, gens[n].id) && (greatest_below(t, bound) is None || gens[n].id
                    > greatest_below(t, bound)->0) {
                    assert(m == gens[n].id);
                    assert forall|j: int|
                        0 <= j < gens.len() && below(bound, (#[trigger] gens[j]).id) implies gens[j].id
                        <= m by {
                        if j < n {
                            assert(t[j] == gens[j]);
                        }
                    }
                } else {
                    let m0 = greatest_below(t, bound)->0;
                    assert(m == m0);
                    let k = choose|k: int| 0 <= k < t.len() && t[k].id == m0;
                    assert(gens[k].id == m);
                    assert forall|j: int|
                        0 <= j < gens.len() && below(bound, (#[trigger] gens[j]).id) implies gens[j].id
                        <= m by {
                        if j < n {
                            assert(t[j] == gens[j]);
                        }
                    }
                }
            },
            None => {
                assert forall|j: int| 0 <= j < gens.len() implies !below(bound, (#[trigger] gens[j]).id) by {
                    if j < n {
                        assert(t[j] == gens[j]);
                    }
                }
            },
        }
    }
}

proof fn lemma_find_from(gens: Seq<Generation>, id: u64, i: int)
    requires
        0 <= i,
    ensures
        match crate::generations::find_from(gens, id, i) {
            Some(g) => exists|k: int| i <= k < gens.len() && gens[k] == g && g.id == id,
            None => forall|k: int| i <= k < gens.len() ==> (#[trigger] gens[k]).id != id,
        },
    decreases gens.len() - i,
{
    if i < gens.len() && gens[i].id != id {
        lemma_find_from(gens, id, i + 1);
    }
}

/// Without a requested generation, a rollback goes to the previous
/// generation: a listed number below that of the current generation (the
/// first listed as current; any number, when none is), and no listed number
/// below the current one is greater. It is refused only when no listed number lies
/// below the current one (or nothing is listed).
pub proof fn lemma_rollback_to_previous(gens: Seq<Generation>)
    ensures
        current_id_from(gens, 0) matches Some(c) ==> exists|k: int|
            0 <= k < gens.len() && gens[k].id == c && gens[k].is_current,
        current_id_from(gens, 0) is None ==> forall|k: int|
            0 <= k < gens.len() ==> !(#[trigger] gens[k]).is_current,
        match rollback_target_spec(gens, None) {
            Ok(id) => (exists|k: int| 0 <= k < gens.len() && gens[k].id == id) && below(
                current_id_from(gens, 0),
                id,
            ) && forall|j: int|
                0 <= j < gens.len() && below(current_id_from(gens, 0), (#[trigger] gens[j]).id)
                    ==> gens[j].id <= id,
            Err(e) => (e == RollbackError::NoGenerations && gens.len() == 0) || (e
                == RollbackError::NoPrevious && gens.len() > 0 && forall|j: int|
                0 <= j < gens.len() ==> !below(current_id_from(gens, 0), (#[trigger] gens[j]).id)),
        },
{
    lemma_current_id_from(gens, 0);
    lemma_greatest_below(gens, current_id_from(gens, 0));
}

/// With a requested generation, a rollback goes to it exactly when it is listed.
pub proof fn lemma_rollback_to_requested(gens: Seq<Generation>, id: u64)
    requires
        gens.len() > 0,
    ensures
        rollback_target_spec(gens, Some(id)) is Ok <==> exists|k: int|
            0 <= k < gens.len() && (#[trigger] gens[k]).id == id,
        rollback_target_spec(gens, Some(id)) is Ok ==> rollback_target_spec(gens, Some(id)) == Ok::<
            u64,
            RollbackError,
        >(id),
{
    lemma_find_from(gens, id, 0);
}

/// Generation numbers that pass the deletion check all name a listed
/// generation, and the first listed generation with each number is not the
/// current one: the current generation is never deleted.
pub proof fn lemma_delete_check_spares_current(gens: Seq<Generation>, ids: Seq<u64>)
    requires
        delete_check_from(gens, ids, 0) is Ok,
    ensures
        forall|i: int|
            0 <= i < ids.len() ==> (find_generation(gens, #[trigger] ids[i]) matches Some(g)
                && !g.is_current),
{
    assert forall|i: int| 0 <= i < ids.len() implies (find_generation(gens, #[trigger] ids[i]) matches Some(g)
        && !g.is_current) by {
        lemma_delete_check_from(gens, ids, 0, i);
    }
}

proof fn lemma_delete_check_from(gens: Seq<Generation>, ids: Seq<u64>, start: int, i: int)
    requires
        0 <= start <= i < ids.len(),
        delete_check_from(gens, ids, start) is Ok,
    ensures
        find_generation(gens, ids[i]) matches Some(g) && !g.is_current,
    decreases i - start,
{
    if start < i {
        lemma_delete_check_from(gens, ids, start + 1, i);
    }
}

} // verus!
