//! System generations, the profile directory and the `nix` commands.
use vstd::prelude::*;
use vstd::multiset::Multiset;
use crate::command::CommandSpec;
use crate::paths::{
    expand_home, expand_home_spec, is_relative_spec, join_spec, join_str, same_path, same_path_spec,
};
use crate::text::{
    decimal, ends_with, ends_with_spec, format_u64, lemma_parse_decimal, parse_u64,
    parse_u64_spec, slice_chars, starts_with, starts_with_spec, string_views, to_chars,
    from_chars,
};

verus! {

/// One system generation, as listed from the profile directory.
#[derive(Debug, Clone)]
pub struct Generation {
    pub id: u64,
    pub date: String,
    pub nixos_version: String,
    pub kernel: String,
    pub config_rev: String,
    pub is_current: bool,
}

/// The directory that holds the system profile links.
pub open spec fn profiles_dir_spec() -> Seq<char> {
    "/nix/var/nix/profiles"@
}

/// The directory that holds the system profile links.
pub fn system_profiles_dir() -> (r: String)
    ensures
        r@ == profiles_dir_spec(),
{
    "/nix/var/nix/profiles".to_string()
}

/// The file name of the profile link of generation `id`: `system-<id>-link`.
pub open spec fn link_name_spec(id: u64) -> Seq<char> {
    "system-"@ + decimal(id as nat) + "-link"@
}

/// The generation number that a profile link name carries: the name is
/// `system-`, then a `u64` literal, then `-link`.
pub open spec fn generation_id_spec(name: Seq<char>) -> Option<u64> {
    let p = "system-"@;
    let q = "-link"@;
    if starts_with_spec(name, p) && ends_with_spec(name.skip(p.len() as int), q) {
        let rest = name.skip(p.len() as int);
        parse_u64_spec(rest.take(rest.len() - q.len()))
    } else {
        None
    }
}

/// The file name of the profile link of generation `id`.
pub fn generation_link_name(id: u64) -> (r: String)
    ensures
        r@ == link_name_spec(id),
{
    "system-".to_string().concat(format_u64(id).as_str()).concat("-link")
}

/// The generation number in a profile link name, if it is one.
pub fn parse_generation_link(name: &str) -> (r: Option<u64>)
    ensures
        r == generation_id_spec(name@),
{
    let cs = to_chars(name);
    let p = to_chars("system-");
    let q = to_chars("-link");
    if !starts_with(cs.as_slice(), p.as_slice()) {
        return None;
    }
    let rest = slice_chars(cs.as_slice(), p.len(), cs.len());
    assert(rest@ =~= name@.skip(p@.len() as int));
    if !ends_with(rest.as_slice(), q.as_slice()) {
        return None;
    }
    let middle = slice_chars(rest.as_slice(), 0, rest.len() - q.len());
    assert(middle@ =~= rest@.take(rest@.len() - q@.len()));
    let text = from_chars(middle.as_slice());
    parse_u64(text.as_str())
}

/// The generation number that a link of the profile named `profile` carries:
/// the name is `profile`, `-`, a `u64` literal, then `-link`.
pub open spec fn profile_link_id_spec(name: Seq<char>, profile: Seq<char>) -> Option<u64> {
    let p = profile + "-"@;
    let q = "-link"@;
    if starts_with_spec(name, p) && ends_with_spec(name.skip(p.len() as int), q) {
        let rest = name.skip(p.len() as int);
        parse_u64_spec(rest.take(rest.len() - q.len()))
    } else {
        None
    }
}

/// The generation number in a link name of the profile named `profile`, if it is one.
pub fn parse_profile_link(name: &str, profile: &str) -> (r: Option<u64>)
    ensures
        r == profile_link_id_spec(name@, profile@),
{
    let cs = to_chars(name);
    let p = to_chars(profile.to_string().concat("-").as_str());
    let q = to_chars("-link");
    if !starts_with(cs.as_slice(), p.as_slice()) {
        return None;
    }
    let rest = slice_chars(cs.as_slice(), p.len(), cs.len());
    assert(rest@ =~= name@.skip(p@.len() as int));
    if !ends_with(rest.as_slice(), q.as_slice()) {
        return None;
    }
    let middle = slice_chars(rest.as_slice(), 0, rest.len() - q.len());
    assert(middle@ =~= rest@.take(rest@.len() - q@.len()));
    let text = from_chars(middle.as_slice());
    parse_u64(text.as_str())
}

/// Reading back the link name of a generation gives its number.
pub proof fn lemma_link_name_roundtrip(id: u64)
    ensures
        generation_id_spec(link_name_spec(id)) == Some(id),
{
    let p = "system-"@;
    let q = "-link"@;
    let d = decimal(id as nat);
    let name = link_name_spec(id);
    assert(name.take(p.len() as int) =~= p);
    let rest = name.skip(p.len() as int);
    assert(rest =~= d + q);
    assert(rest.skip(rest.len() - q.len()) =~= q);
    assert(rest.take(rest.len() - q.len()) =~= d);
    lemma_parse_decimal(id);
}

/// `g` placed into `s` after every entry whose number is not greater than its own.
pub open spec fn insert_by_id(s: Seq<Generation>, g: Generation) -> Seq<Generation>
    decreases s.len(),
{
    if s.len() == 0 {
        seq![g]
    } else if s.last().id <= g.id {
        s.push(g)
    } else {
        insert_by_id(s.drop_last(), g).push(s.last())
    }
}

/// The generations ordered by number, keeping the given order among equal
/// numbers, as `sort_by_key(|g| g.id)` leaves them.
pub open spec fn sort_by_id_spec(s: Seq<Generation>) -> Seq<Generation>
    decreases s.len(),
{
    if s.len() == 0 {
        seq![]
    } else {
        insert_by_id(sort_by_id_spec(s.drop_last()), s.last())
    }
}

/// Generation numbers never decrease along `s`.
pub open spec fn sorted_by_id(s: Seq<Generation>) -> bool {
    forall|i: int, j: int| 0 <= i <= j < s.len() ==> s[i].id <= s[j].id
}

proof fn lemma_insert_at(s: Seq<Generation>, g: Generation, pos: int)
    requires
        0 <= pos <= s.len(),
        forall|j: int| 0 <= j < pos ==> (#[trigger] s[j]).id <= g.id,
        forall|j: int| pos <= j < s.len() ==> (#[trigger] s[j]).id > g.id,
    ensures
        insert_by_id(s, g) == s.insert(pos, g),
    decreases s.len(),
{
    if s.len() == 0 {
        assert(s.insert(pos, g) =~= seq![g]);
    } else if pos == s.len() {
        assert(s.insert(pos, g) =~= s.push(g));
    } else {
        let t = s.drop_last();
        assert forall|j: int| 0 <= j < pos implies (#[trigger] t[j]).id <= g.id by {
            assert(t[j] == s[j]);
        }
        assert forall|j: int| pos <= j < t.len() implies (#[trigger] t[j]).id > g.id by {
            assert(t[j] == s[j]);
        }
        lemma_insert_at(t, g, pos);
        assert(t.insert(pos, g).push(s.last()) =~= s.insert(pos, g));
    }
}

proof fn lemma_insert_sorted(s: Seq<Generation>, g: Generation)
    requires
        sorted_by_id(s),
    ensures
        sorted_by_id(insert_by_id(s, g)),
        insert_by_id(s, g).to_multiset() =~= s.to_multiset().insert(g),
    decreases s.len(),
{
    broadcast use vstd::seq_lib::to_multiset_build, vstd::multiset::group_multiset_axioms;
    if s.len() == 0 {
        assert(seq![g] =~= Seq::<Generation>::empty().push(g));
        assert(s =~= Seq::<Generation>::empty());
        assert(insert_by_id(s, g).to_multiset() == Seq::<Generation>::empty().push(g).to_multiset());
        assert(Seq::<Generation>::empty().to_multiset() =~= Multiset::empty()) by {
            vstd::seq_lib::to_multiset_len(Seq::<Generation>::empty());
            vstd::multiset::lemma_multiset_empty_len(Seq::<Generation>::empty().to_multiset());
        }
    } else if s.last().id <= g.id {
    } else {
        let t = s.drop_last();
        assert(sorted_by_id(t));
        lemma_insert_sorted(t, g);
        let u = insert_by_id(t, g);
        assert(t.push(s.last()) =~= s);
        assert(s.to_multiset() == t.push(s.last()).to_multiset());
        assert(u.push(s.last()).to_multiset() =~= u.to_multiset().insert(s.last()));
        assert forall|i: int| 0 <= i < u.len() implies (#[trigger] u[i]).id <= s.last().id by {
            assert(u.to_multiset().count(u[i]) > 0) by {
                broadcast use vstd::seq_lib::to_multiset_contains;
                assert(u.contains(u[i]));
            }
            if u[i] != g {
                assert(t.to_multiset().count(u[i]) > 0);
                broadcast use vstd::seq_lib::to_multiset_contains;
                let k = choose|k: int| 0 <= k < t.len() && t[k] == u[i];
                assert(s[k] == t[k]);
            }
        }
    }
}

/// The result of sorting is ordered and holds exactly the given generations.
pub proof fn lemma_sort_by_id(s: Seq<Generation>)
    ensures
        sorted_by_id(sort_by_id_spec(s)),
        sort_by_id_spec(s).to_multiset() =~= s.to_multiset(),
    decreases s.len(),
{
    broadcast use vstd::seq_lib::to_multiset_build;
    if s.len() == 0 {
        assert(s =~= Seq::<Generation>::empty());
        assert(Seq::<Generation>::empty().to_multiset() =~= Multiset::empty()) by {
            vstd::seq_lib::to_multiset_len(Seq::<Generation>::empty());
            vstd::multiset::lemma_multiset_empty_len(Seq::<Generation>::empty().to_multiset());
        }
    } else {
        lemma_sort_by_id(s.drop_last());
        lemma_insert_sorted(sort_by_id_spec(s.drop_last()), s.last());
        assert(s.drop_last().push(s.last()) =~= s);
        assert(s.to_multiset() == s.drop_last().push(s.last()).to_multiset());
    }
}

/// Orders generations by number; among equal numbers the given order stays.
pub fn sort_generations(gens: Vec<Generation>) -> (r: Vec<Generation>)
    ensures
        r@ == sort_by_id_spec(gens@),
        sorted_by_id(r@),
        r@.to_multiset() == gens@.to_multiset(),
{
    let ghost s = gens@;
    let n = gens.len();
    let mut rest = gens;
    let mut r: Vec<Generation> = Vec::new();
    let mut i: usize = 0;
    assert(s.take(0) =~= Seq::<Generation>::empty());
    assert(s.skip(0) =~= s);
    while rest.len() > 0
        invariant
            i <= s.len() == n,
            rest@ == s.skip(i as int),
            r@ == sort_by_id_spec(s.take(i as int)),
            sorted_by_id(r@),
        decreases rest.len(),
    {
        let g = rest.remove(0);
        assert(g == s[i as int]);
        assert(s.skip(i as int).remove(0) =~= s.skip(i + 1));
        assert(s.take(i + 1).drop_last() =~= s.take(i as int));
        assert(s.take(i + 1).last() == g);
        let mut pos: usize = r.len();
        while pos > 0 && r[pos - 1].id > g.id
            invariant
                pos <= r.len(),
                sorted_by_id(r@),
                forall|j: int| pos <= j < r.len() ==> (#[trigger] r@[j]).id > g.id,
            decreases pos,
        {
            pos -= 1;
        }
        proof {
            assert forall|j: int| 0 <= j < pos implies (#[trigger] r@[j]).id <= g.id by {
                assert(r@[j].id <= r@[pos - 1].id);
            }
            lemma_insert_at(r@, g, pos as int);
            lemma_insert_sorted(r@, g);
        }
        r.insert(pos, g);
        i += 1;
    }
    assert(s.take(i as int) =~= s);
    proof {
        lemma_sort_by_id(s);
    }
    r
}

/// Whether the entry at `entry_path` is the generation that the `system` link
/// points to: a relative link target is read against the profile directory, and
/// the paths are compared component by component.
pub open spec fn is_current_spec(
    profiles_dir: Seq<char>,
    link_target: Option<Seq<char>>,
    entry_path: Seq<char>,
) -> bool {
    match link_target {
        Some(t) => {
            let resolved = if is_relative_spec(t) {
                join_spec(profiles_dir, t)
            } else {
                t
            };
            same_path_spec(resolved, entry_path)
        },
        None => false,
    }
}

/// The view of an optional string slice.
pub open spec fn str_option_view(o: Option<&str>) -> Option<Seq<char>> {
    match o {
        Some(t) => Some(t@),
        None => None,
    }
}

/// Whether the entry at `entry_path` is the current generation, given where the
/// `system` link points (`None` when it could not be read).
pub fn is_current_entry(profiles_dir: &str, link_target: Option<&str>, entry_path: &str) -> (r:
    bool)
    ensures
        r == is_current_spec(profiles_dir@, str_option_view(link_target), entry_path@),
{
    match link_target {
        Some(t) => {
            let is_relative = !(t.len() > 0 && to_chars(t)[0] == '/');
            if is_relative {
                let resolved = join_str(profiles_dir, t);
                same_path(resolved.as_str(), entry_path)
            } else {
                same_path(t, entry_path)
            }
        },
        None => false,
    }
}

/// The views of environment pairs.
pub open spec fn env_views(e: Seq<(String, String)>) -> Seq<(Seq<char>, Seq<char>)> {
    e.map_values(|p: (String, String)| (p.0@, p.1@))
}

/// A `nix` tool invocation: the program with unfree packages allowed and nothing else set.
pub open spec fn is_nix_command(c: CommandSpec, name: Seq<char>) -> bool {
    &&& c.program@ == name
    &&& env_views(c.env@) == seq![("NIXPKGS_ALLOW_UNFREE"@, "1"@)]
}

/// The command that runs the nix tool `name` with unfree packages allowed.
pub fn nix_command(name: &str) -> (r: CommandSpec)
    ensures
        is_nix_command(r, name@),
        r.arg_views() == Seq::<Seq<char>>::empty(),
        r.current_dir is None,
{
    let mut c = CommandSpec::new(name);
    c.env("NIXPKGS_ALLOW_UNFREE", "1");
    assert(env_views(c.env@) =~= seq![("NIXPKGS_ALLOW_UNFREE"@, "1"@)]);
    assert(c.arg_views() =~= Seq::<Seq<char>>::empty());
    c
}

/// `nix build [--out-link <link>] <flake_ref>`.
pub fn nix_build_command(flake_ref: &str, out_link: Option<&str>) -> (r: CommandSpec)
    ensures
        is_nix_command(r, "nix"@),
        r.current_dir is None,
        r.arg_views() == seq!["build"@] + (match out_link {
            Some(l) => seq!["--out-link"@, l@],
            None => Seq::<Seq<char>>::empty(),
        }) + seq![flake_ref@],
{
    let mut c = nix_command("nix");
    c.arg("build");
    if let Some(link) = out_link {
        c.arg("--out-link");
        c.arg(link);
    }
    c.arg(flake_ref);
    assert(c.arg_views() =~= seq!["build"@] + (match out_link {
        Some(l) => seq!["--out-link"@, l@],
        None => Seq::<Seq<char>>::empty(),
    }) + seq![flake_ref@]);
    c
}

/// `nix eval --raw <flake_ref>`.
pub fn nix_eval_command(flake_ref: &str) -> (r: CommandSpec)
    ensures
        is_nix_command(r, "nix"@),
        r.current_dir is None,
        r.arg_views() == seq!["eval"@, "--raw"@, flake_ref@],
{
    let mut c = nix_command("nix");
    c.arg("eval");
    c.arg("--raw");
    c.arg(flake_ref);
    assert(c.arg_views() =~= seq!["eval"@, "--raw"@, flake_ref@]);
    c
}

/// `nix flake update`, run in `flake_dir`.
pub fn nix_flake_update_command(flake_dir: &str) -> (r: CommandSpec)
    ensures
        is_nix_command(r, "nix"@),
        r.current_dir matches Some(d) && d@ == flake_dir@,
        r.arg_views() == seq!["flake"@, "update"@],
{
    let mut c = nix_command("nix");
    c.arg("flake");
    c.arg("update");
    c.current_dir(flake_dir);
    assert(c.arg_views() =~= seq!["flake"@, "update"@]);
    c
}

/// The directories searched for `flake.nix`, in order: `$NX_FLAKE` when set
/// (a leading `~` read as the home directory), then the default
/// `~/.dotfiles` (an empty path when there is no home), then `/etc/nixos`.
pub open spec fn flake_candidates_spec(nx_flake: Option<Seq<char>>, home: Option<Seq<char>>) -> Seq<
    Seq<char>,
> {
    (match nx_flake {
        Some(f) => seq![expand_home_spec(f, home)],
        None => Seq::<Seq<char>>::empty(),
    }) + seq![
        match home {
            Some(h) => join_spec(h, ".dotfiles"@),
            None => Seq::<char>::empty(),
        },
        "/etc/nixos"@,
    ]
}

/// The directories searched for `flake.nix`, in order.
pub fn flake_dir_candidates(nx_flake: Option<&str>, home: Option<&str>) -> (r: Vec<String>)
    ensures
        string_views(r@) == flake_candidates_spec(str_option_view(nx_flake), str_option_view(home)),
{
    let mut r: Vec<String> = Vec::new();
    if let Some(f) = nx_flake {
        r.push(expand_home(f, home));
    }
    match home {
        Some(h) => r.push(join_str(h, ".dotfiles")),
        None => r.push(String::new()),
    }
    r.push("/etc/nixos".to_string());
    assert(string_views(r@) =~= flake_candidates_spec(
        str_option_view(nx_flake),
        str_option_view(home),
    ));
    r
}

/// The first position at or after `i` that holds `true`.
pub open spec fn first_true_from(b: Seq<bool>, i: int) -> Option<int>
    decreases b.len() - i,
{
    if i < 0 || i >= b.len() {
        None
    } else if b[i] {
        Some(i)
    } else {
        first_true_from(b, i + 1)
    }
}

/// The message given when no candidate directory holds `flake.nix`.
pub open spec fn no_flake_message() -> Seq<char> {
    "Could not find flake.nix. Set NX_FLAKE or place flake.nix in ~/.dotfiles or /etc/nixos"@
}

/// The first candidate that holds `flake.nix` (`has_flake[i]` tells whether
/// `candidates[i]` does), or the refusal when none does.
pub fn pick_flake_dir(candidates: &[String], has_flake: &[bool]) -> (r: Result<String, String>)
    requires
        candidates.len() == has_flake.len(),
    ensures
        match first_true_from(has_flake@, 0) {
            Some(i) => r matches Ok(d) && d@ == candidates@[i]@,
            None => r matches Err(e) && e@ == no_flake_message(),
        },
{
    let mut i: usize = 0;
    while i < has_flake.len()
        invariant
            i <= has_flake.len() == candidates.len(),
            first_true_from(has_flake@, 0) == first_true_from(has_flake@, i as int),
        decreases has_flake.len() - i,
    {
        if has_flake[i] {
            return Ok(candidates[i].clone());
        }
        i += 1;
    }
    Err("Could not find flake.nix. Set NX_FLAKE or place flake.nix in ~/.dotfiles or /etc/nixos".to_string())
}

} // verus!
