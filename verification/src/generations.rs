//! Showing generations and reading a selection of them.
use vstd::prelude::*;
use crate::log::{error, warn, LogLevel, LogMessage};
use crate::nix::Generation;
use crate::text::{
    decimal, format_u64, from_chars, is_whitespace_spec, pad_left_spec, pad_right_spec,
    parse_u64_spec, push_padded_left, push_padded_right, split_whitespace, to_chars, trim_chars,
    trim_spec, views_of, words_spec, append_chars, parse_u64,
};

verus! {

/// The first generation at or after position `i` that has number `id`.
pub open spec fn find_from(gens: Seq<Generation>, id: u64, i: int) -> Option<Generation>
    decreases gens.len() - i,
{
    if i < 0 || i >= gens.len() {
        None
    } else if gens[i].id == id {
        Some(gens[i])
    } else {
        find_from(gens, id, i + 1)
    }
}

/// The first generation with number `id`, as `iter().find(|g| g.id == id)` gives it.
pub open spec fn find_generation(gens: Seq<Generation>, id: u64) -> Option<Generation> {
    find_from(gens, id, 0)
}

/// The first generation with number `id`.
pub fn find_by_id(gens: &[Generation], id: u64) -> (r: Option<usize>)
    ensures
        r matches Some(i) ==> i < gens.len() && find_generation(gens@, id) == Some(gens@[i as int]),
        r is None ==> find_generation(gens@, id) is None,
{
    let mut i: usize = 0;
    while i < gens.len()
        invariant
            i <= gens.len(),
            find_generation(gens@, id) == find_from(gens@, id, i as int),
        decreases gens.len() - i,
    {
        if gens[i].id == id {
            return Some(i);
        }
        i += 1;
    }
    None
}

/// `s` padded to `w` characters, followed by one space.
pub open spec fn cell(s: Seq<char>, w: nat) -> Seq<char> {
    pad_right_spec(s, w) + seq![' ']
}

/// One line of the generation table: number, date, NixOS version, kernel and
/// configuration revision in columns of 6, 18, 12 and 16 characters, the last
/// column unpadded, and `marker` after it.
pub open spec fn table_line(
    id: Seq<char>,
    date: Seq<char>,
    version: Seq<char>,
    kernel: Seq<char>,
    config: Seq<char>,
    marker: Seq<char>,
) -> Seq<char> {
    seq![' ', ' '] + cell(id, 6) + cell(date, 18) + cell(version, 12) + cell(kernel, 16) + config
        + marker
}

/// The line that shows generation `g`: a revision of `-` when it has none, and
/// ` *` after the current generation.
pub open spec fn generation_line(g: Generation) -> Seq<char> {
    table_line(
        decimal(g.id as nat),
        g.date@,
        g.nixos_version@,
        g.kernel@,
        if g.config_rev@.len() == 0 {
            seq!['-']
        } else {
            g.config_rev@
        },
        if g.is_current {
            seq![' ', '*']
        } else {
            seq![]
        },
    )
}

fn table_line_of(
    id: &[char],
    date: &[char],
    version: &[char],
    kernel: &[char],
    config: &[char],
    marker: &[char],
) -> (r: String)
    ensures
        r@ == table_line(id@, date@, version@, kernel@, config@, marker@),
{
    let mut v: Vec<char> = Vec::new();
    v.push(' ');
    v.push(' ');
    push_padded_right(&mut v, id, 6);
    v.push(' ');
    push_padded_right(&mut v, date, 18);
    v.push(' ');
    push_padded_right(&mut v, version, 12);
    v.push(' ');
    push_padded_right(&mut v, kernel, 16);
    v.push(' ');
    append_chars(&mut v, config);
    append_chars(&mut v, marker);
    assert(v@ =~= table_line(id@, date@, version@, kernel@, config@, marker@));
    from_chars(v.as_slice())
}

/// The line that shows one generation.
pub fn generation_row(g: &Generation) -> (r: String)
    ensures
        r@ == generation_line(*g),
{
    let id = to_chars(format_u64(g.id).as_str());
    let date = to_chars(g.date.as_str());
    let version = to_chars(g.nixos_version.as_str());
    let kernel = to_chars(g.kernel.as_str());
    let rev = to_chars(g.config_rev.as_str());
    let config = if rev.len() == 0 {
        to_chars("-")
    } else {
        rev
    };
    let marker = if g.is_current {
        to_chars(" *")
    } else {
        to_chars("")
    };
    proof {
        reveal_strlit("-");
        reveal_strlit(" *");
        reveal_strlit("");
    }
    table_line_of(
        id.as_slice(),
        date.as_slice(),
        version.as_slice(),
        kernel.as_slice(),
        config.as_slice(),
        marker.as_slice(),
    )
}

/// What is shown for a list of generations.
pub enum Listing {
    /// Nothing to show; this warning instead.
    Nothing(LogMessage),
    /// These lines.
    Lines(Vec<String>),
}

/// The table heading: column titles, then a line of dashes under each.
pub open spec fn table_heading() -> Seq<Seq<char>> {
    seq![
        table_line("ID"@, "Date"@, "NixOS"@, "Kernel"@, "Config"@, seq![]),
        table_line("---"@, "----"@, "-----"@, "------"@, "------"@, seq![]),
    ]
}

/// The generation table: the heading, then one line per generation in the
/// given order; a warning when there is no generation.
pub fn generation_table(generations: &[Generation]) -> (r: Listing)
    ensures
        generations@.len() == 0 ==> (r matches Listing::Nothing(m) && m.level == LogLevel::Warn
            && m.text@ == "No generations found"@),
        generations@.len() > 0 ==> (r matches Listing::Lines(lines) && crate::text::string_views(
            lines@,
        ) == table_heading() + generations@.map_values(|g: Generation| generation_line(g))),
{
    if generations.len() == 0 {
        return Listing::Nothing(warn("No generations found"));
    }
    let mut lines: Vec<String> = Vec::new();
    let empty = to_chars("");
    let h1 = table_line_of(
        to_chars("ID").as_slice(),
        to_chars("Date").as_slice(),
        to_chars("NixOS").as_slice(),
        to_chars("Kernel").as_slice(),
        to_chars("Config").as_slice(),
        empty.as_slice(),
    );
    let h2 = table_line_of(
        to_chars("---").as_slice(),
        to_chars("----").as_slice(),
        to_chars("-----").as_slice(),
        to_chars("------").as_slice(),
        to_chars("------").as_slice(),
        empty.as_slice(),
    );
    proof {
        reveal_strlit("");
    }
    lines.push(h1);
    lines.push(h2);
    let ghost head = crate::text::string_views(lines@);
    assert(head =~= table_heading());
    let mut i: usize = 0;
    while i < generations.len()
        invariant
            i <= generations.len(),
            crate::text::string_views(lines@) == head + generations@.take(i as int).map_values(
                |g: Generation| generation_line(g),
            ),
        decreases generations.len() - i,
    {
        let ghost before = lines@;
        let row = generation_row(&generations[i]);
        lines.push(row);
        proof {
            crate::text::lemma_string_views_push(before, row);
            assert(generations@.take(i + 1).map_values(|g: Generation| generation_line(g))
                =~= generations@.take(i as int).map_values(|g: Generation| generation_line(g)).push(
                generation_line(generations@[i as int]),
            ));
        }
        i += 1;
    }
    assert(generations@.take(i as int) =~= generations@);
    Listing::Lines(lines)
}

/// One line of the selection list, printed as `before`, then `marker` in red,
/// then `after`.
pub struct MarkedLine {
    pub before: String,
    pub marker: String,
    pub after: String,
}

/// The selection line of generation `g`: its number right-aligned in 4
/// characters, ` *` for the current generation (two spaces otherwise), its date.
pub open spec fn marked_line_spec(g: Generation, m: MarkedLine) -> bool {
    &&& m.before@ == seq![' ', ' '] + pad_left_spec(decimal(g.id as nat), 4)
    &&& m.marker@ == (if g.is_current {
        seq![' ', '*']
    } else {
        seq![' ', ' ']
    })
    &&& m.after@ == seq![' ', ' '] + g.date@
}

/// The selection line of one generation.
pub fn marked_line(g: &Generation) -> (r: MarkedLine)
    ensures
        marked_line_spec(*g, r),
{
    let mut before: Vec<char> = Vec::new();
    before.push(' ');
    before.push(' ');
    push_padded_left(&mut before, to_chars(format_u64(g.id).as_str()).as_slice(), 4);
    let mut after: Vec<char> = Vec::new();
    after.push(' ');
    after.push(' ');
    append_chars(&mut after, to_chars(g.date.as_str()).as_slice());
    let marker = if g.is_current {
        " *".to_string()
    } else {
        "  ".to_string()
    };
    proof {
        reveal_strlit(" *");
        reveal_strlit("  ");
        assert(marker@ =~= (if g.is_current {
            seq![' ', '*']
        } else {
            seq![' ', ' ']
        }));
    }
    let r = MarkedLine {
        before: from_chars(before.as_slice()),
        marker,
        after: from_chars(after.as_slice()),
    };
    assert(r.before@ =~= seq![' ', ' '] + pad_left_spec(decimal(g.id as nat), 4));
    assert(r.after@ =~= seq![' ', ' '] + g.date@);
    r
}

/// The selection list: one line per generation in the given order; a warning
/// when there is no generation to select.
pub fn selection_list(generations: &[Generation]) -> (r: Result<Vec<MarkedLine>, LogMessage>)
    ensures
        generations@.len() == 0 ==> (r matches Err(m) && m.level == LogLevel::Warn && m.text@
            == "No generations to select"@),
        generations@.len() > 0 ==> (r matches Ok(lines) && lines@.len() == generations@.len()
            && forall|i: int|
            0 <= i < lines@.len() ==> marked_line_spec(generations@[i], #[trigger] lines@[i])),
{
    if generations.len() == 0 {
        return Err(warn("No generations to select"));
    }
    let mut lines: Vec<MarkedLine> = Vec::new();
    let mut i: usize = 0;
    while i < generations.len()
        invariant
            i <= generations.len(),
            lines@.len() == i,
            forall|j: int| 0 <= j < i ==> marked_line_spec(generations@[j], #[trigger] lines@[j]),
        decreases generations.len() - i,
    {
        lines.push(marked_line(&generations[i]));
        i += 1;
    }
    Ok(lines)
}

/// The numbers among `words`, in order: each word that `u64::from_str`
/// accepts, the others left out.
pub open spec fn parsed_ids(words: Seq<Seq<char>>) -> Seq<u64>
    decreases words.len(),
{
    if words.len() == 0 {
        seq![]
    } else {
        (match parse_u64_spec(words[0]) {
            Some(n) => seq![n],
            None => Seq::<u64>::empty(),
        }) + parsed_ids(words.drop_first())
    }
}

/// The first number in `ids` whose generation (the first with that number) is current.
pub open spec fn first_current_from(gens: Seq<Generation>, ids: Seq<u64>, i: int) -> Option<u64>
    decreases ids.len() - i,
{
    if i < 0 || i >= ids.len() {
        None
    } else if find_generation(gens, ids[i]) matches Some(g) && g.is_current {
        Some(ids[i])
    } else {
        first_current_from(gens, ids, i + 1)
    }
}

/// The outcome of reading a selection.
pub enum Selection {
    /// Nothing chosen: the answer was `q` or empty.
    Cancelled,
    /// Nothing chosen; this message says why.
    Rejected(LogMessage),
    /// These generation numbers, in the order given.
    Chosen(Vec<u64>),
}

/// The message that refuses to delete the current generation `id`.
pub open spec fn current_refusal(id: u64) -> Seq<char> {
    "Cannot delete current generation "@ + decimal(id as nat)
}

/// What a selection answer `input` gives: after trimming, `q` or nothing
/// cancels; otherwise the whitespace-separated numbers are read (other words
/// are ignored); no number is a warning; a number of the current generation is
/// refused; otherwise those numbers are chosen.
pub open spec fn selection_spec(input: Seq<char>, gens: Seq<Generation>, r: Selection) -> bool {
    let t = trim_spec(input);
    let ids = parsed_ids(words_spec(t));
    if t == seq!['q'] || t.len() == 0 {
        r is Cancelled
    } else if ids.len() == 0 {
        r matches Selection::Rejected(m) && m.level == LogLevel::Warn && m.text@
            == "No valid generation IDs entered"@
    } else {
        match first_current_from(gens, ids, 0) {
            Some(id) => r matches Selection::Rejected(m) && m.level == LogLevel::Error && m.text@
                == current_refusal(id),
            None => r matches Selection::Chosen(v) && v@ == ids,
        }
    }
}

/// Reads a selection answer against the listed generations.
pub fn parse_selection(input: &str, generations: &[Generation]) -> (r: Selection)
    ensures
        selection_spec(input@, generations@, r),
{
    let cs = to_chars(input);
    let t = trim_chars(cs.as_slice());
    if (t.len() == 1 && t[0] == 'q') || t.len() == 0 {
        proof {
            if t.len() == 1 {
                assert(t@ =~= seq!['q']);
            }
        }
        return Selection::Cancelled;
    }
    proof {
        if t@ == seq!['q'] {
            assert(t@[0] == 'q');
        }
    }
    let words = split_whitespace(t.as_slice());
    let mut ids: Vec<u64> = Vec::new();
    let mut i: usize = 0;
    let ghost ws = views_of(words@);
    assert(ws.skip(0) =~= ws);
    while i < words.len()
        invariant
            i <= words.len(),
            ws == views_of(words@),
            ws.len() == words.len(),
            ids@ + parsed_ids(ws.skip(i as int)) == parsed_ids(ws),
        decreases words.len() - i,
    {
        let ghost before = ids@;
        let w = from_chars(words[i].as_slice());
        assert(ws.skip(i as int).drop_first() =~= ws.skip(i + 1));
        assert(ws.skip(i as int)[0] == words@[i as int]@);
        match parse_u64(w.as_str()) {
            Some(n) => {
                ids.push(n);
                assert(before + (seq![n] + parsed_ids(ws.skip(i + 1))) =~= ids@ + parsed_ids(
                    ws.skip(i + 1),
                ));
            },
            None => {
                assert(before + (Seq::<u64>::empty() + parsed_ids(ws.skip(i + 1))) =~= ids@
                    + parsed_ids(ws.skip(i + 1)));
            },
        }
        i += 1;
    }
    assert(ws.skip(i as int) =~= Seq::<Seq<char>>::empty());
    assert(ids@ + parsed_ids(ws.skip(i as int)) =~= ids@);
    if ids.len() == 0 {
        return Selection::Rejected(warn("No valid generation IDs entered"));
    }
    let mut k: usize = 0;
    while k < ids.len()
        invariant
            k <= ids.len(),
            t@ == trim_spec(input@),
            !(t@ == seq!['q'] || t@.len() == 0),
            ids@ == parsed_ids(words_spec(t@)),
            ids@.len() > 0,
            first_current_from(generations@, ids@, 0) == first_current_from(
                generations@,
                ids@,
                k as int,
            ),
        decreases ids.len() - k,
    {
        match find_by_id(generations, ids[k]) {
            Some(j) => {
                if generations[j].is_current {
                    assert(first_current_from(generations@, ids@, k as int) == Some(ids@[k as int]));
                    let msg = "Cannot delete current generation ".to_string().concat(
                        format_u64(ids[k]).as_str(),
                    );
                    return Selection::Rejected(error(msg.as_str()));
                }
            },
            None => {},
        }
        k += 1;
    }
    Selection::Chosen(ids)
}

proof fn lemma_first_current_none(gens: Seq<Generation>, ids: Seq<u64>, start: int, i: int)
    requires
        0 <= start <= i < ids.len(),
        first_current_from(gens, ids, start) is None,
    ensures
        !(find_generation(gens, ids[i]) matches Some(g) && g.is_current),
    decreases i - start,
{
    if start < i {
        lemma_first_current_none(gens, ids, start + 1, i);
    }
}

/// A selection never chooses the current generation: every chosen number is
/// one that was typed, and the first listed generation with that number, if
/// any, is not current.
pub proof fn lemma_selection_spares_current(input: Seq<char>, gens: Seq<Generation>, sel: Selection)
    requires
        selection_spec(input, gens, sel),
        sel is Chosen,
    ensures
        sel matches Selection::Chosen(v) && v@ == parsed_ids(words_spec(trim_spec(input)))
            && forall|i: int|
            0 <= i < v@.len() ==> !(find_generation(gens, #[trigger] v@[i]) matches Some(g)
                && g.is_current),
{
    if let Selection::Chosen(v) = sel {
        let ids = v@;
        assert forall|i: int| 0 <= i < ids.len() implies !(find_generation(gens, #[trigger] ids[i]) matches Some(
            g,
        ) && g.is_current) by {
            lemma_first_current_none(gens, ids, 0, i);
        }
    }
}

/// Only the current generation is marked, whatever its configuration
/// revision: a generation's row is the row it would have if it were not
/// current, followed by ` *` exactly when it is current.
pub proof fn lemma_row_marks_current(g: Generation)
    ensures
        generation_line(g) == generation_line(Generation { is_current: false, ..g }) + (if g.is_current {
            seq![' ', '*']
        } else {
            Seq::<char>::empty()
        }),
        g.is_current ==> generation_line(g).skip(generation_line(g).len() - 2) == seq![' ', '*'],
{
    let h = Generation { is_current: false, ..g };
    assert(generation_line(h) + Seq::<char>::empty() =~= generation_line(h));
    if g.is_current {
        assert(generation_line(g) =~= generation_line(h) + seq![' ', '*']);
        assert(generation_line(g).skip(generation_line(g).len() - 2) =~= seq![' ', '*']);
    } else {
        assert(generation_line(g) =~= generation_line(h));
    }
}

} // verus!
