//! The build-and-extract protocol: composing the build-system invocations
//! and parsing their structured output into the produced binaries.
//!
//! The build system is invoked twice with the same command: once for
//! human-readable progress and once with a flag asking for structured,
//! line-delimited records. A non-zero exit of either invocation fails with
//! the captured standard error. The structured stream is decoded as UTF-8,
//! split into lines, and each non-empty line is parsed as a record; the
//! records that carry an `executable` field name the produced binaries, in
//! the order their lines appeared.

use crate::config::{lemma_views_push, views_of_strings, Config};
use vstd::prelude::*;
use vstd::utf8::{decode_utf8, valid_utf8};

verus! {

/// Why a build failed.
#[derive(Debug, Clone, PartialEq)]
pub enum BuildError {
    /// The build system exited with a non-zero status; carries the captured
    /// standard error bytes, verbatim.
    BuildFailed { stderr: Vec<u8> },
    /// The structured output stream is not valid UTF-8 text.
    InvalidUtf8,
    /// A non-empty line of the structured output is not a valid record;
    /// carries the parser's error text.
    InvalidRecord { message: String },
}

/// What one line of the structured output says about an executable: nothing
/// (no `executable` field, or an empty line), a produced binary's path, or a
/// parse failure.
#[derive(Debug, Clone, PartialEq)]
pub enum ArtifactRecord {
    /// The line is not a valid record; carries the parser's error text.
    Invalid(String),
    /// The record carries no `executable` field.
    NoExecutable,
    /// The record's `executable` field: the path of a produced binary.
    Executable(String),
}

/// What the structured-output parser answers for a line and a field: the
/// field's string when the line is a valid record that has it, `Ok(None)`
/// for a valid record without it, and the parse error's text otherwise.
/// The answer depends on the line's and the field's characters alone.
pub uninterp spec fn json_string_field_of(line: Seq<char>, field: Seq<char>) -> Result<
    Option<Seq<char>>,
    Seq<char>,
>;

/// Relies on `json::parse`, the `&str` indexing of `json::JsonValue` and
/// `JsonValue::take_string`: parses the line as a record and takes the given
/// field's string, if the record has one. The error text comes from the
/// `Display` of `json::Error`.
#[verifier::external_body]
fn json_string_field(line: &str, field: &str) -> (r: Result<Option<String>, String>)
    ensures
        match r {
            Ok(Some(s)) => json_string_field_of(line@, field@) == Result::<
                Option<Seq<char>>,
                Seq<char>,
            >::Ok(Some(s@)),
            Ok(None) => json_string_field_of(line@, field@) == Result::<
                Option<Seq<char>>,
                Seq<char>,
            >::Ok(None),
            Err(m) => json_string_field_of(line@, field@) == Result::<
                Option<Seq<char>>,
                Seq<char>,
            >::Err(m@),
        },
{
    match json::parse(line) {
        Ok(mut v) => Ok(v[field].take_string()),
        Err(e) => Err(format!("{}", e)),
    }
}

/// Relies on `String::from_utf8`: succeeds exactly on valid UTF-8 input and
/// then holds the decoded characters, as vstd's UTF-8 model states them.
#[verifier::external_body]
fn decode_output(bytes: Vec<u8>) -> (r: Option<String>)
    ensures
        r is Some <==> valid_utf8(bytes@),
        r matches Some(s) ==> s@ == decode_utf8(bytes@),
{
    String::from_utf8(bytes).ok()
}

/// A line with its terminating `\r` removed, when it has one.
pub open spec fn strip_cr(l: Seq<char>) -> Seq<char> {
    if l.len() > 0 && l.last() == '\r' {
        l.drop_last()
    } else {
        l
    }
}

/// The lines of a text while it is being read: the completed lines, followed
/// by the still-open last line. A `\n` completes the open line, removing a
/// `\r` just before it; every other character extends the open line.
pub open spec fn lines_acc(s: Seq<char>) -> Seq<Seq<char>>
    decreases s.len(),
{
    if s.len() == 0 {
        seq![Seq::<char>::empty()]
    } else {
        let prev = lines_acc(s.drop_last());
        if s.last() == '\n' {
            prev.drop_last().push(strip_cr(prev.last())).push(Seq::<char>::empty())
        } else {
            prev.drop_last().push(prev.last().push(s.last()))
        }
    }
}

/// The lines of a text: line endings are `\n` or `\r\n`, and the ending of
/// the last line is optional.
pub open spec fn lines_of(s: Seq<char>) -> Seq<Seq<char>> {
    let acc = lines_acc(s);
    if acc.last().len() == 0 {
        acc.drop_last()
    } else {
        acc
    }
}

/// The reading of a text always has an open line.
proof fn lemma_lines_acc_len(s: Seq<char>)
    ensures
        lines_acc(s).len() >= 1,
    decreases s.len(),
{
    if s.len() > 0 {
        lemma_lines_acc_len(s.drop_last());
    }
}

/// Whether a record states what the structured-output parser answers for a
/// line, an empty line counting as no executable.
pub open spec fn record_matches(rec: ArtifactRecord, line: Seq<char>) -> bool {
    if line.len() == 0 {
        rec is NoExecutable
    } else {
        match json_string_field_of(line, "executable"@) {
            Ok(Some(p)) => rec matches ArtifactRecord::Executable(s) && s@ == p,
            Ok(None) => rec is NoExecutable,
            Err(m) => rec matches ArtifactRecord::Invalid(t) && t@ == m,
        }
    }
}

/// The error text of the first invalid record, if any.
pub open spec fn first_invalid(rs: Seq<ArtifactRecord>) -> Option<Seq<char>>
    decreases rs.len(),
{
    if rs.len() == 0 {
        None
    } else if first_invalid(rs.drop_last()) is Some {
        first_invalid(rs.drop_last())
    } else {
        match rs.last() {
            ArtifactRecord::Invalid(m) => Some(m@),
            _ => None,
        }
    }
}

/// The paths of the executable records, in order.
pub open spec fn executable_paths_of(rs: Seq<ArtifactRecord>) -> Seq<Seq<char>>
    decreases rs.len(),
{
    if rs.len() == 0 {
        Seq::empty()
    } else {
        let prev = executable_paths_of(rs.drop_last());
        match rs.last() {
            ArtifactRecord::Executable(s) => prev.push(s@),
            _ => prev,
        }
    }
}

/// A sequence of records with no invalid one has no invalid record at any
/// position, and the other way round.
proof fn lemma_first_invalid_none(rs: Seq<ArtifactRecord>)
    ensures
        first_invalid(rs) is None <==> (forall|j: int|
            0 <= j < rs.len() ==> !(rs[j] is Invalid)),
    decreases rs.len(),
{
    if rs.len() > 0 {
        lemma_first_invalid_none(rs.drop_last());
        assert(forall|j: int| 0 <= j < rs.len() - 1 ==> rs.drop_last()[j] == rs[j]);
        assert(rs.last() == rs[rs.len() - 1]);
    }
}

/// When every record before position `i` is valid and the record at `i` is
/// invalid, the first invalid record is the one at `i`.
proof fn lemma_first_invalid_locate(rs: Seq<ArtifactRecord>, i: int)
    requires
        0 <= i < rs.len(),
        forall|j: int| 0 <= j < i ==> !(rs[j] is Invalid),
        rs[i] is Invalid,
    ensures
        first_invalid(rs) == Some(rs[i]->Invalid_0@),
    decreases rs.len(),
{
    assert(forall|j: int| 0 <= j < rs.len() - 1 ==> rs.drop_last()[j] == rs[j]);
    if i == rs.len() - 1 {
        lemma_first_invalid_none(rs.drop_last());
    } else {
        lemma_first_invalid_locate(rs.drop_last(), i);
    }
}

/// Splits a text into its lines, as [`lines_of`] states them.
pub fn split_lines(s: &str) -> (r: Vec<String>)
    ensures
        views_of_strings(r@) == lines_of(s@),
{
    let n = s.unicode_len();
    let mut out: Vec<String> = Vec::new();
    let mut start: usize = 0;
    let mut i: usize = 0;
    proof {
        assert(s@.take(0) =~= Seq::<char>::empty());
    }
    while i < n
        invariant
            start <= i <= n,
            n == s@.len(),
            lines_acc(s@.take(i as int)).len() >= 1,
            views_of_strings(out@) == lines_acc(s@.take(i as int)).drop_last(),
            s@.subrange(start as int, i as int) == lines_acc(s@.take(i as int)).last(),
        decreases n - i,
    {
        proof {
            assert(s@.take(i + 1).drop_last() =~= s@.take(i as int));
            assert(s@.take(i + 1).last() == s@[i as int]);
            lemma_lines_acc_len(s@.take(i + 1));
        }
        let c = s.get_char(i);
        if c == '\n' {
            let end = if i > start && s.get_char(i - 1) == '\r' {
                i - 1
            } else {
                i
            };
            let line = s.substring_char(start, end).to_owned();
            proof {
                let prev = lines_acc(s@.take(i as int));
                let open = s@.subrange(start as int, i as int);
                if end < i {
                    assert(open.last() == s@[i - 1]);
                    assert(strip_cr(open) =~= s@.subrange(start as int, end as int));
                } else {
                    if i > start {
                        assert(open.last() == s@[i - 1]);
                    }
                    assert(strip_cr(open) =~= s@.subrange(start as int, end as int));
                }
                lemma_views_push(out@, line);
                assert(lines_acc(s@.take(i + 1)).drop_last() =~= prev.drop_last().push(strip_cr(
                    open,
                )));
                assert(s@.subrange(i + 1, i + 1) =~= Seq::<char>::empty());
            }
            out.push(line);
            start = i + 1;
        } else {
            proof {
                assert(s@.subrange(start as int, i + 1) =~= s@.subrange(start as int, i as int).push(
                    s@[i as int],
                ));
                assert(lines_acc(s@.take(i + 1)).drop_last() =~= lines_acc(
                    s@.take(i as int),
                ).drop_last());
            }
        }
        i = i + 1;
    }
    proof {
        assert(s@.take(n as int) =~= s@);
    }
    if start < n {
        let line = s.substring_char(start, n).to_owned();
        proof {
            let acc = lines_acc(s@);
            assert(acc.last().len() > 0);
            lemma_views_push(out@, line);
            assert(acc.drop_last().push(acc.last()) =~= acc);
        }
        out.push(line);
    } else {
        proof {
            assert(lines_acc(s@).last() =~= Seq::<char>::empty());
        }
    }
    out
}

/// Asks the structured-output parser about each line in turn; an empty line
/// yields a record with no executable.
pub fn parse_output_records(lines: &Vec<String>) -> (r: Vec<ArtifactRecord>)
    ensures
        r@.len() == lines@.len(),
        forall|j: int| 0 <= j < lines@.len() ==> record_matches(r@[j], lines@[j]@),
{
    let mut records: Vec<ArtifactRecord> = Vec::new();
    let mut i: usize = 0;
    while i < lines.len()
        invariant
            i <= lines@.len(),
            records@.len() == i,
            forall|j: int| 0 <= j < i ==> record_matches(records@[j], lines@[j]@),
        decreases lines@.len() - i,
    {
        let line = &lines[i];
        if line.as_str().unicode_len() == 0 {
            records.push(ArtifactRecord::NoExecutable);
        } else {
            match json_string_field(line.as_str(), "executable") {
                Ok(Some(path)) => records.push(ArtifactRecord::Executable(path)),
                Ok(None) => records.push(ArtifactRecord::NoExecutable),
                Err(message) => records.push(ArtifactRecord::Invalid(message)),
            }
        }
        i = i + 1;
    }
    records
}

/// Collects the executables the records name, in order.
///
/// The first invalid record decides the error; with none, the result holds
/// exactly the paths of the `executable`-bearing records, in the order their
/// records stand. No record is an error: a build that produced nothing
/// yields the empty list.
pub fn collect_artifacts(records: Vec<ArtifactRecord>) -> (r: Result<Vec<String>, BuildError>)
    ensures
        first_invalid(records@) matches Some(m) ==> (r matches Err(
            BuildError::InvalidRecord { message },
        ) && message@ == m),
        first_invalid(records@) is None ==> (r matches Ok(v) && views_of_strings(v@)
            == executable_paths_of(records@)),
{
    let mut out: Vec<String> = Vec::new();
    let mut i: usize = 0;
    while i < records.len()
        invariant
            i <= records@.len(),
            forall|j: int| 0 <= j < i ==> !(records@[j] is Invalid),
            views_of_strings(out@) == executable_paths_of(records@.take(i as int)),
        decreases records@.len() - i,
    {
        proof {
            assert(records@.take(i + 1).drop_last() =~= records@.take(i as int));
            assert(records@.take(i + 1).last() == records@[i as int]);
        }
        match &records[i] {
            ArtifactRecord::Invalid(m) => {
                proof {
                    lemma_first_invalid_locate(records@, i as int);
                }
                return Err(BuildError::InvalidRecord { message: m.clone() });
            },
            ArtifactRecord::NoExecutable => {
                proof {
                    assert(views_of_strings(out@) =~= executable_paths_of(records@.take(i + 1)));
                }
            },
            ArtifactRecord::Executable(s) => {
                out.push(s.clone());
                proof {
                    assert(views_of_strings(out@) =~= executable_paths_of(records@.take(i + 1)));
                }
            },
        }
        i = i + 1;
    }
    proof {
        assert(records@.take(records@.len() as int) =~= records@);
        lemma_first_invalid_none(records@);
    }
    Ok(out)
}

/// The error text of the first line whose record is invalid, if any, an
/// empty line counting as valid.
pub open spec fn first_invalid_line(lines: Seq<Seq<char>>) -> Option<Seq<char>>
    decreases lines.len(),
{
    if lines.len() == 0 {
        None
    } else if first_invalid_line(lines.drop_last()) is Some {
        first_invalid_line(lines.drop_last())
    } else if lines.last().len() == 0 {
        None
    } else {
        match json_string_field_of(lines.last(), "executable"@) {
            Err(m) => Some(m),
            Ok(_) => None,
        }
    }
}

/// The executable paths the lines carry, in order.
pub open spec fn executables_of_lines(lines: Seq<Seq<char>>) -> Seq<Seq<char>>
    decreases lines.len(),
{
    if lines.len() == 0 {
        Seq::empty()
    } else {
        let prev = executables_of_lines(lines.drop_last());
        if lines.last().len() == 0 {
            prev
        } else {
            match json_string_field_of(lines.last(), "executable"@) {
                Ok(Some(p)) => prev.push(p),
                _ => prev,
            }
        }
    }
}

/// Records that state what the parser answers for each line carry the same
/// first error and the same executables as the lines themselves.
proof fn lemma_records_bridge(rs: Seq<ArtifactRecord>, lines: Seq<String>)
    requires
        rs.len() == lines.len(),
        forall|j: int| 0 <= j < lines.len() ==> record_matches(rs[j], lines[j]@),
    ensures
        first_invalid(rs) == first_invalid_line(views_of_strings(lines)),
        executable_paths_of(rs) == executables_of_lines(views_of_strings(lines)),
    decreases rs.len(),
{
    let lv = views_of_strings(lines);
    if rs.len() == 0 {
        assert(lv.len() == 0);
    } else {
        assert(forall|j: int| 0 <= j < rs.len() - 1 ==> rs.drop_last()[j] == rs[j]);
        assert(forall|j: int|
            0 <= j < lines.len() - 1 ==> lines.drop_last()[j] == lines[j]);
        lemma_records_bridge(rs.drop_last(), lines.drop_last());
        assert(views_of_strings(lines.drop_last()) =~= lv.drop_last());
        assert(lv.last() == lines.last()@);
        assert(record_matches(rs.last(), lines.last()@));
    }
}

/// Parses the captured structured output into the produced executables.
///
/// The bytes are decoded as UTF-8 text (anything else fails), split into
/// lines, and each non-empty line is handed to the structured-output
/// parser: the first unparsable line decides the error, and otherwise the
/// result holds exactly the paths of the lines that carry an `executable`
/// field, in the order those lines appeared.
pub fn artifacts_from_output(stdout: Vec<u8>) -> (r: Result<Vec<String>, BuildError>)
    ensures
        !valid_utf8(stdout@) ==> r == Err::<Vec<String>, BuildError>(BuildError::InvalidUtf8),
        valid_utf8(stdout@) ==> {
            let lines = lines_of(decode_utf8(stdout@));
            &&& (first_invalid_line(lines) matches Some(m) ==> (r matches Err(
                BuildError::InvalidRecord { message },
            ) && message@ == m))
            &&& (first_invalid_line(lines) is None ==> (r matches Ok(v) && views_of_strings(v@)
                == executables_of_lines(lines)))
        },
{
    let text = match decode_output(stdout) {
        None => {
            return Err(BuildError::InvalidUtf8);
        },
        Some(t) => t,
    };
    let lines = split_lines(text.as_str());
    let records = parse_output_records(&lines);
    proof {
        lemma_records_bridge(records@, lines@);
    }
    collect_artifacts(records)
}

/// The command line of one build invocation: the configured build command,
/// then the extra arguments, then, for the structured invocation, the flag
/// that asks for line-delimited record output.
pub fn build_command_line(config: &Config, extra_args: &Vec<String>, structured: bool) -> (r: Vec<
    String,
>)
    ensures
        views_of_strings(r@) == views_of_strings(config.build_command@) + views_of_strings(
            extra_args@,
        ) + if structured {
            seq!["--message-format"@, "json"@]
        } else {
            Seq::<Seq<char>>::empty()
        },
{
    let mut out: Vec<String> = Vec::new();
    let mut i: usize = 0;
    while i < config.build_command.len()
        invariant
            i <= config.build_command@.len(),
            views_of_strings(out@) == views_of_strings(config.build_command@.take(i as int)),
        decreases config.build_command@.len() - i,
    {
        let item = config.build_command[i].clone();
        proof {
            lemma_views_push(out@, item);
            assert(config.build_command@.take(i + 1) =~= config.build_command@.take(
                i as int,
            ).push(config.build_command@[i as int]));
            lemma_views_push(config.build_command@.take(i as int), config.build_command@[i as int]);
        }
        out.push(item);
        i = i + 1;
    }
    proof {
        assert(config.build_command@.take(config.build_command@.len() as int)
            =~= config.build_command@);
    }
    let mut j: usize = 0;
    while j < extra_args.len()
        invariant
            j <= extra_args@.len(),
            views_of_strings(out@) == views_of_strings(config.build_command@) + views_of_strings(
                extra_args@.take(j as int),
            ),
        decreases extra_args@.len() - j,
    {
        let item = extra_args[j].clone();
        proof {
            lemma_views_push(out@, item);
            assert(extra_args@.take(j + 1) =~= extra_args@.take(j as int).push(
                extra_args@[j as int],
            ));
            lemma_views_push(extra_args@.take(j as int), extra_args@[j as int]);
            assert(views_of_strings(out@).push(item@) =~= views_of_strings(config.build_command@)
                + views_of_strings(extra_args@.take(j + 1)));
        }
        out.push(item);
        j = j + 1;
    }
    proof {
        assert(extra_args@.take(extra_args@.len() as int) =~= extra_args@);
        assert(views_of_strings(out@) =~= views_of_strings(config.build_command@)
            + views_of_strings(extra_args@));
    }
    if structured {
        let flag = "--message-format".to_owned();
        proof {
            lemma_views_push(out@, flag);
        }
        out.push(flag);
        let value = "json".to_owned();
        proof {
            lemma_views_push(out@, value);
        }
        out.push(value);
        proof {
            assert(views_of_strings(out@) =~= views_of_strings(config.build_command@)
                + views_of_strings(extra_args@) + seq!["--message-format"@, "json"@]);
        }
    } else {
        proof {
            assert(views_of_strings(out@) =~= views_of_strings(config.build_command@)
                + views_of_strings(extra_args@) + Seq::<Seq<char>>::empty());
        }
    }
    out
}

/// Decides what a whole build-and-extract round yields from what the two
/// invocations returned.
///
/// A non-zero exit of the first, human-readable invocation fails with its
/// captured standard error, verbatim, and no artifact; so does a non-zero
/// exit of the second, structured invocation. When both succeeded, the
/// structured output decides, as [`artifacts_from_output`] states.
pub fn build_kernel_outcome(
    human_exit_ok: bool,
    human_stderr: Vec<u8>,
    structured_exit_ok: bool,
    structured_stderr: Vec<u8>,
    structured_stdout: Vec<u8>,
) -> (r: Result<Vec<String>, BuildError>)
    ensures
        !human_exit_ok ==> (r matches Err(BuildError::BuildFailed { stderr }) && stderr@
            == human_stderr@),
        human_exit_ok && !structured_exit_ok ==> (r matches Err(BuildError::BuildFailed { stderr })
            && stderr@ == structured_stderr@),
        human_exit_ok && structured_exit_ok ==> {
            &&& !valid_utf8(structured_stdout@) ==> r == Err::<Vec<String>, BuildError>(
                BuildError::InvalidUtf8,
            )
            &&& valid_utf8(structured_stdout@) ==> {
                let lines = lines_of(decode_utf8(structured_stdout@));
                &&& (first_invalid_line(lines) matches Some(m) ==> (r matches Err(
                    BuildError::InvalidRecord { message },
                ) && message@ == m))
                &&& (first_invalid_line(lines) is None ==> (r matches Ok(v) && views_of_strings(
                    v@,
                ) == executables_of_lines(lines)))
            }
        },
{
    if !human_exit_ok {
        return Err(BuildError::BuildFailed { stderr: human_stderr });
    }
    if !structured_exit_ok {
        return Err(BuildError::BuildFailed { stderr: structured_stderr });
    }
    artifacts_from_output(structured_stdout)
}

} // verus!
