//! A line search: the settings of one search, and the lines of a text
//! that hold the query.

use crate::text::{contains, lines, lines_of, occurs_in, trim, trimmed, views};
use vstd::prelude::*;

verus! {

/// The settings of one search.
pub struct Config {
    /// The text to look for.
    pub query: String,
    /// The file to look in.
    pub file_path: String,
    /// Whether upper and lower case count as the same.
    pub ignore_case: bool,
}

/// The lower-case form of `text`, as `str::to_lowercase` of the standard
/// library gives it.
pub uninterp spec fn lowercase(text: Seq<char>) -> Seq<char>;

/// The test that keeps the lines in which `query` stands.
pub open spec fn holds(query: Seq<char>) -> spec_fn(Seq<char>) -> bool {
    |line: Seq<char>| occurs_in(query, line)
}

/// The test that keeps the lines in which `query` stands once both are
/// put in lower case.
pub open spec fn holds_ignoring_case(query: Seq<char>) -> spec_fn(Seq<char>) -> bool {
    |line: Seq<char>| occurs_in(lowercase(query), lowercase(line))
}

/// What is reported of a line that was kept: the line without the blanks
/// at its ends.
pub open spec fn reported() -> spec_fn(Seq<char>) -> Seq<char> {
    |line: Seq<char>| trimmed(line)
}

/// The lines of `contents` in which `query` stands, in their order, each
/// without the blanks at its ends.
pub open spec fn matches(query: Seq<char>, contents: Seq<char>) -> Seq<Seq<char>> {
    lines_of(contents).filter(holds(query)).map_values(reported())
}

/// The lines of `contents` in which `query` stands whatever the case of
/// the letters, in their order, each as written but without the blanks at
/// its ends.
pub open spec fn matches_ignoring_case(query: Seq<char>, contents: Seq<char>) -> Seq<Seq<char>> {
    lines_of(contents).filter(holds_ignoring_case(query)).map_values(reported())
}

/// The text of the error for too few arguments.
pub open spec fn too_few_arguments() -> Seq<char> {
    "Not enough arguments"@
}

/// Calls `str::to_lowercase`. Nothing is proved of it: the result is
/// taken to be the lower-case form of the argument, a function of the
/// argument alone.
#[verifier::external_body]
fn to_lowercase(text: &str) -> (lowered: String)
    ensures
        lowered@ == lowercase(text@),
{
    text.to_lowercase()
}

/// One more line has been looked at: the report grows by the line if the
/// line is kept, and stays as it is otherwise.
proof fn lemma_report_next(
    all: Seq<Seq<char>>,
    done: int,
    keep: spec_fn(Seq<char>) -> bool,
)
    requires
        0 <= done < all.len(),
    ensures
        all.take(done + 1).filter(keep).map_values(reported()) == if keep(all[done]) {
            all.take(done).filter(keep).map_values(reported()).push(trimmed(all[done]))
        } else {
            all.take(done).filter(keep).map_values(reported())
        },
{
    let before = all.take(done);
    assert(all.take(done + 1) =~= before.push(all[done]));
    before.lemma_filter_push(all[done], keep);
    if keep(all[done]) {
        assert(before.filter(keep).push(all[done]).map_values(reported()) =~= before.filter(
            keep,
        ).map_values(reported()).push(trimmed(all[done])));
    }
}

impl Config {
    /// Reads the settings from the arguments of the program: the query is
    /// the second argument and the file the third. Whether case is ignored
    /// is the caller's to say. Fewer than three arguments are an error.
    pub fn parse_config(args: &[String], ignore_case: bool) -> (parsed: Result<
        Config,
        &'static str,
    >)
        ensures
            args@.len() < 3 <==> parsed is Err,
            parsed matches Err(message) ==> message@ == too_few_arguments(),
            parsed matches Ok(config) ==> {
                &&& config.query@ == args@[1]@
                &&& config.file_path@ == args@[2]@
                &&& config.ignore_case == ignore_case
            },
    {
        if args.len() < 3 {
            return Err("Not enough arguments");
        }
        let query = args[1].clone();
        let file_path = args[2].clone();
        Ok(Config { query, file_path, ignore_case })
    }

    /// Runs the search on the contents of the file: the lines to report,
    /// found with or without regard to case as the settings say.
    pub fn run<'a>(config: &Config, contents: &'a str) -> (found: Vec<&'a str>)
        ensures
            views(found@) == if config.ignore_case {
                matches_ignoring_case(config.query@, contents@)
            } else {
                matches(config.query@, contents@)
            },
    {
        if config.ignore_case {
            search_case_insensitive(config.query.as_str(), contents)
        } else {
            search(config.query.as_str(), contents)
        }
    }
}

/// The lines of `contents` in which `query` stands.
pub fn search<'a>(query: &str, contents: &'a str) -> (results: Vec<&'a str>)
    ensures
        views(results@) == matches(query@, contents@),
{
    let all = lines(contents);
    let mut results: Vec<&'a str> = Vec::new();
    let mut i: usize = 0;
    assert(views(results@) =~= views(all@).take(0).filter(holds(query@)).map_values(reported())) by {
        reveal(Seq::filter);
    }
    while i < all.len()
        invariant
            i <= all@.len(),
            views(all@) == lines_of(contents@),
            views(results@) == views(all@).take(i as int).filter(holds(query@)).map_values(
                reported(),
            ),
        decreases all@.len() - i,
    {
        let line = all[i];
        proof {
            lemma_report_next(views(all@), i as int, holds(query@));
        }
        if contains(line, query) {
            let inner = trim(line);
            assert(views(results@.push(inner)) =~= views(results@).push(inner@));
            results.push(inner);
        }
        i += 1;
    }
    assert(views(all@).take(all@.len() as int) =~= views(all@));
    results
}

/// The lines of `contents` in which `query` stands, whatever the case of
/// the letters.
pub fn search_case_insensitive<'a>(query: &str, contents: &'a str) -> (results: Vec<&'a str>)
    ensures
        views(results@) == matches_ignoring_case(query@, contents@),
{
    let lowered_query = to_lowercase(query);
    let all = lines(contents);
    let mut results: Vec<&'a str> = Vec::new();
    let mut i: usize = 0;
    assert(views(results@) =~= views(all@).take(0).filter(holds_ignoring_case(query@)).map_values(
        reported(),
    )) by {
        reveal(Seq::filter);
    }
    while i < all.len()
        invariant
            i <= all@.len(),
            views(all@) == lines_of(contents@),
            lowered_query@ == lowercase(query@),
            views(results@) == views(all@).take(i as int).filter(
                holds_ignoring_case(query@),
            ).map_values(reported()),
        decreases all@.len() - i,
    {
        let line = all[i];
        proof {
            lemma_report_next(views(all@), i as int, holds_ignoring_case(query@));
        }
        let lowered_line = to_lowercase(line);
        if contains(lowered_line.as_str(), lowered_query.as_str()) {
            let inner = trim(line);
            assert(views(results@.push(inner)) =~= views(results@).push(inner@));
            results.push(inner);
        }
        i += 1;
    }
    assert(views(all@).take(all@.len() as int) =~= views(all@));
    results
}

} // verus!
