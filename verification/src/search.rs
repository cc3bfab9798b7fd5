//! Package search: what to search with, and how results are shown.
use vstd::prelude::*;
use crate::command::CommandSpec;
use crate::log::{error, info, warn, LogLevel, LogMessage};
use crate::text::{decimal, format_u64, trim, trim_spec};

verus! {

/// Options of `search`.
pub struct SearchArgs {
    /// Search query.
    pub query: Option<String>,
    /// Use the search.nixos.org web API instead of nix search.
    pub web: bool,
    /// Output in JSON format.
    pub json: bool,
    /// Show descriptions.
    pub description: bool,
}

/// How a search goes.
pub enum SearchPlan {
    /// No search; this warning instead.
    Refused(LogMessage),
    /// Search with `nix search` on this machine.
    Local { query: String, json: bool, description: bool },
    /// Search through the search.nixos.org API.
    Web { query: String, json: bool, description: bool },
}

/// The plan for `a`: a missing or empty query is refused with a hint;
/// otherwise the web API is used when asked for, `nix search` when not.
pub open spec fn search_plan_spec(a: SearchArgs, p: SearchPlan) -> bool {
    let q = match a.query {
        Some(s) => s@,
        None => Seq::<char>::empty(),
    };
    if q.len() == 0 {
        p matches SearchPlan::Refused(m) && m.level == LogLevel::Warn && m.text@
            == "Please provide a search query: nx search <query>"@
    } else if a.web {
        p matches SearchPlan::Web { query, json, description } && query@ == q && json == a.json
            && description == a.description
    } else {
        p matches SearchPlan::Local { query, json, description } && query@ == q && json == a.json
            && description == a.description
    }
}

/// The plan for a search.
pub fn plan_search(a: SearchArgs) -> (p: SearchPlan)
    ensures
        search_plan_spec(a, p),
{
    let ghost a0 = a;
    let query = match a.query {
        Some(s) => s,
        None => String::new(),
    };
    if query.as_str().is_empty() {
        return SearchPlan::Refused(warn("Please provide a search query: nx search <query>"));
    }
    if a.web {
        SearchPlan::Web { query, json: a.json, description: a.description }
    } else {
        SearchPlan::Local { query, json: a.json, description: a.description }
    }
}

/// The announcement of a search on this machine or on the web.
pub open spec fn searching_text(query: Seq<char>, web: bool) -> Seq<char> {
    (if web {
        "Searching search.nixos.org for '"@
    } else {
        "Searching nixpkgs for '"@
    }) + query + "'..."@
}

/// The announcement of a search.
pub fn searching_message(query: &str, web: bool) -> (m: LogMessage)
    ensures
        m.level == LogLevel::Info,
        m.text@ == searching_text(query@, web),
{
    let head = if web {
        "Searching search.nixos.org for '".to_string()
    } else {
        "Searching nixpkgs for '".to_string()
    };
    info(head.concat(query).concat("'...").as_str())
}

/// `nix search nixpkgs <query> --json`.
pub fn local_search_command(query: &str) -> (c: CommandSpec)
    ensures
        c.program@ == "nix"@,
        c.arg_views() == seq!["search"@, "nixpkgs"@, query@, "--json"@],
        c.env@.len() == 0,
        c.current_dir is None,
{
    let mut c = CommandSpec::new("nix");
    c.arg("search");
    c.arg("nixpkgs");
    c.arg(query);
    c.arg("--json");
    assert(c.arg_views() =~= seq!["search"@, "nixpkgs"@, query@, "--json"@]);
    c
}

/// The message shown when `nix search` fails, with its trimmed error output.
pub fn search_failure(stderr: &str) -> (m: LogMessage)
    ensures
        m.level == LogLevel::Error,
        m.text@ == "Search failed: "@ + trim_spec(stderr@),
{
    error("Search failed: ".to_string().concat(trim(stderr).as_str()).as_str())
}

/// One package found: its name, version and description, each when the
/// answer gives it as a string.
pub struct SearchEntry {
    pub name: Option<String>,
    pub version: Option<String>,
    pub description: Option<String>,
}

/// One shown result: the name (green, bold), the version (dimmed), and the
/// description on a line of its own when descriptions are asked for.
pub struct ResultLine {
    pub name: String,
    pub version: String,
    pub description: Option<String>,
}

/// What a search shows.
pub enum SearchReport {
    /// No result; this warning instead.
    Nothing(LogMessage),
    /// These result lines, then the count of results.
    Results { lines: Vec<ResultLine>, count: String },
}

/// An optional string, as plain text.
pub open spec fn opt_view(o: Option<String>) -> Option<Seq<char>> {
    match o {
        Some(s) => Some(s@),
        None => None,
    }
}

/// A package found, as plain text: name, version and description.
pub open spec fn entry_view(e: SearchEntry) -> (Option<Seq<char>>, Option<Seq<char>>, Option<Seq<char>>) {
    (opt_view(e.name), opt_view(e.version), opt_view(e.description))
}

/// The packages found, as plain text.
pub open spec fn entry_views(v: Seq<SearchEntry>) -> Seq<(Option<Seq<char>>, Option<Seq<char>>, Option<Seq<char>>)> {
    v.map_values(|e: SearchEntry| entry_view(e))
}

/// How the package `e` (name, version, description) is shown: a missing name
/// or version as `?`, a missing description as nothing, the description only
/// when `show_description`.
pub open spec fn result_line_spec(
    e: (Option<Seq<char>>, Option<Seq<char>>, Option<Seq<char>>),
    show_description: bool,
    l: ResultLine,
) -> bool {
    &&& l.name@ == (match e.0 {
        Some(n) => n,
        None => "?"@,
    })
    &&& l.version@ == (match e.1 {
        Some(v) => v,
        None => "?"@,
    })
    &&& if show_description {
        l.description matches Some(d) && d@ == (match e.2 {
            Some(x) => x,
            None => Seq::<char>::empty(),
        })
    } else {
        l.description is None
    }
}

/// The report of the packages found, in the given order: a warning when there
/// is none, otherwise one line each and their count.
pub open spec fn search_report_spec(
    entries: Seq<(Option<Seq<char>>, Option<Seq<char>>, Option<Seq<char>>)>,
    show_description: bool,
    r: SearchReport,
) -> bool {
    if entries.len() == 0 {
        r matches SearchReport::Nothing(m) && m.level == LogLevel::Warn && m.text@
            == "No results found"@
    } else {
        r matches SearchReport::Results { lines, count } && count@ == decimal(entries.len())
            && lines@.len() == entries.len() && forall|i: int|
            0 <= i < entries.len() ==> result_line_spec(
                entries[i],
                show_description,
                #[trigger] lines@[i],
            )
    }
}

fn copy_string(s: &String) -> (r: String)
    ensures
        r@ == s@,
{
    s.clone()
}

/// How one entry is shown.
pub fn result_line(e: &SearchEntry, show_description: bool) -> (l: ResultLine)
    ensures
        result_line_spec(entry_view(*e), show_description, l),
{
    let version = match &e.version {
        Some(v) => copy_string(v),
        None => "?".to_string(),
    };
    let description = if show_description {
        match &e.description {
            Some(d) => Some(copy_string(d)),
            None => Some(String::new()),
        }
    } else {
        None
    };
    let name = match &e.name {
        Some(n) => copy_string(n),
        None => "?".to_string(),
    };
    ResultLine { name, version, description }
}

/// The report of a search.
pub fn search_report(entries: &[SearchEntry], show_description: bool) -> (r: SearchReport)
    ensures
        search_report_spec(entry_views(entries@), show_description, r),
{
    if entries.len() == 0 {
        return SearchReport::Nothing(warn("No results found"));
    }
    let mut lines: Vec<ResultLine> = Vec::new();
    let mut i: usize = 0;
    while i < entries.len()
        invariant
            i <= entries.len(),
            lines@.len() == i,
            forall|j: int|
                0 <= j < i ==> result_line_spec(
                    entry_view(entries@[j]),
                    show_description,
                    #[trigger] lines@[j],
                ),
        decreases entries.len() - i,
    {
        lines.push(result_line(&entries[i], show_description));
        i += 1;
    }
    SearchReport::Results { lines, count: format_u64(entries.len() as u64) }
}

/// What the output of `nix search --json` decodes to: `Err` with the
/// decoder's message when the bytes are not JSON; `Ok(None)` when the JSON is
/// not an object; otherwise each member's name with the `version` and
/// `description` members of its value where those are strings, in the order
/// of the decoded map.
pub uninterp spec fn nix_search_packages(bytes: Seq<u8>) -> Result<
    Option<Seq<(Seq<char>, Option<Seq<char>>, Option<Seq<char>>)>>,
    Seq<char>,
>;

/// A decoded package, as a package entry (its name is always given).
pub open spec fn package_views(p: Seq<(Seq<char>, Option<Seq<char>>, Option<Seq<char>>)>) -> Seq<
    (Option<Seq<char>>, Option<Seq<char>>, Option<Seq<char>>),
> {
    p.map_values(|x: (Seq<char>, Option<Seq<char>>, Option<Seq<char>>)| (Some(x.0), x.1, x.2))
}

/// Decodes `bytes` with `serde_json::from_slice` into a `serde_json::Value`;
/// for an object, takes each member's name and, with `Value::as_str`, the
/// `version` and `description` members of its value. The claim is that the
/// outcome, including the decoder's message on failure, is a function of the
/// bytes alone; nothing is said of how JSON is read.
#[verifier::external_body]
fn decode_nix_search(bytes: &[u8]) -> (r: Result<Option<Vec<SearchEntry>>, String>)
    ensures
        match (r, nix_search_packages(bytes@)) {
            (Ok(Some(v)), Ok(Some(p))) => entry_views(v@) == package_views(p),
            (Ok(None), Ok(None)) => true,
            (Err(e), Err(m)) => e@ == m,
            _ => false,
        },
{
    match serde_json::from_slice::<serde_json::Value>(bytes) {
        Ok(serde_json::Value::Object(map)) => Ok(Some(map.iter().map(|(name, info)| SearchEntry {
            name: Some(name.clone()),
            version: info["version"].as_str().map(String::from),
            description: info["description"].as_str().map(String::from),
        }).collect())),
        Ok(_) => Ok(None),
        Err(e) => Err(e.to_string()),
    }
}

/// The report of an answer of `nix search --json` (`stdout`): the packages of
/// the object it holds (none when it is not an object), shown as
/// [`search_report`] shows them, or the decoder's message when it is not JSON.
pub fn local_search_report(stdout: &[u8], show_description: bool) -> (r: Result<SearchReport, String>)
    ensures
        match nix_search_packages(stdout@) {
            Ok(Some(p)) => r matches Ok(rep) && search_report_spec(package_views(p), show_description, rep),
            Ok(None) => r matches Ok(rep) && search_report_spec(seq![], show_description, rep),
            Err(m) => r matches Err(e) && e@ == m,
        },
{
    match decode_nix_search(stdout) {
        Ok(Some(entries)) => Ok(search_report(entries.as_slice(), show_description)),
        Ok(None) => {
            let none: Vec<SearchEntry> = Vec::new();
            assert(entry_views(none@) =~= seq![]);
            Ok(search_report(none.as_slice(), show_description))
        },
        Err(e) => Err(e),
    }
}

/// What the answer of the search.nixos.org API decodes to: `Err` with the
/// decoder's message when the bytes are not JSON; `Ok(None)` when its
/// `hits.hits` member is not an array; otherwise, for each hit in order, the
/// `package_pname`, `package_version` and `package_description` members of
/// its `_source` where those are strings.
pub uninterp spec fn web_search_hits(bytes: Seq<u8>) -> Result<
    Option<Seq<(Option<Seq<char>>, Option<Seq<char>>, Option<Seq<char>>)>>,
    Seq<char>,
>;

/// Decodes `bytes` with `serde_json::from_slice` into a `serde_json::Value`;
/// for an array at `hits.hits` (reached with `Value`'s indexing), takes from
/// each hit's `_source`, with `Value::as_str`, the package name, version and
/// description. The claim is that the outcome, including the decoder's
/// message on failure, is a function of the bytes alone; nothing is said of
/// how JSON is read.
#[verifier::external_body]
fn decode_web_hits(bytes: &[u8]) -> (r: Result<Option<Vec<SearchEntry>>, String>)
    ensures
        match (r, web_search_hits(bytes@)) {
            (Ok(Some(v)), Ok(Some(p))) => entry_views(v@) == p,
            (Ok(None), Ok(None)) => true,
            (Err(e), Err(m)) => e@ == m,
            _ => false,
        },
{
    match serde_json::from_slice::<serde_json::Value>(bytes) {
        Ok(data) => Ok(data["hits"]["hits"].as_array().map(|hits| hits.iter().map(|hit| SearchEntry {
            name: hit["_source"]["package_pname"].as_str().map(String::from),
            version: hit["_source"]["package_version"].as_str().map(String::from),
            description: hit["_source"]["package_description"].as_str().map(String::from),
        }).collect())),
        Err(e) => Err(e.to_string()),
    }
}

/// The report of an answer of the search.nixos.org API (`body`): its hits
/// (none when it has no array of hits), shown as [`search_report`] shows them,
/// or the decoder's message when it is not JSON.
pub fn web_search_report(body: &[u8], show_description: bool) -> (r: Result<SearchReport, String>)
    ensures
        match web_search_hits(body@) {
            Ok(Some(p)) => r matches Ok(rep) && search_report_spec(p, show_description, rep),
            Ok(None) => r matches Ok(rep) && search_report_spec(seq![], show_description, rep),
            Err(m) => r matches Err(e) && e@ == m,
        },
{
    match decode_web_hits(body) {
        Ok(Some(entries)) => Ok(search_report(entries.as_slice(), show_description)),
        Ok(None) => {
            let none: Vec<SearchEntry> = Vec::new();
            assert(entry_views(none@) =~= seq![]);
            Ok(search_report(none.as_slice(), show_description))
        },
        Err(e) => Err(e),
    }
}

/// What the search.nixos.org answer gives for `--json`: `Err` with the
/// decoder's message when the bytes are not JSON (or the encoder's, should
/// it fail); `Ok(None)` when its `hits.hits` member is not an array;
/// otherwise that array written out as pretty-printed JSON.
pub uninterp spec fn web_hits_json(bytes: Seq<u8>) -> Result<Option<Seq<char>>, Seq<char>>;

/// Decodes `bytes` with `serde_json::from_slice` and, for an array at
/// `hits.hits`, writes it with `serde_json::to_string_pretty`. The claim is
/// that the outcome, including an error message, is a function of the bytes
/// alone; nothing is said of how JSON is read or written.
#[verifier::external_body]
fn encode_web_hits(bytes: &[u8]) -> (r: Result<Option<String>, String>)
    ensures
        match (r, web_hits_json(bytes@)) {
            (Ok(Some(t)), Ok(Some(u))) => t@ == u,
            (Ok(None), Ok(None)) => true,
            (Err(e), Err(m)) => e@ == m,
            _ => false,
        },
{
    match serde_json::from_slice::<serde_json::Value>(bytes) {
        Ok(data) => match data["hits"]["hits"].as_array() {
            Some(hits) => serde_json::to_string_pretty(hits).map(Some).map_err(|e| e.to_string()),
            None => Ok(None),
        },
        Err(e) => Err(e.to_string()),
    }
}

/// The hits of a search.nixos.org answer (`body`) as pretty-printed JSON, for
/// `--json`: nothing when the answer has no array of hits, the message when
/// it cannot be read.
pub fn web_search_json(body: &[u8]) -> (r: Result<Option<String>, String>)
    ensures
        match web_hits_json(body@) {
            Ok(Some(u)) => r matches Ok(Some(t)) && t@ == u,
            Ok(None) => r matches Ok(None),
            Err(m) => r matches Err(e) && e@ == m,
        },
{
    encode_web_hits(body)
}

} // verus!
