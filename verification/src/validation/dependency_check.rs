//! Dependency-count limit. Counts the resolved graph from `Cargo.lock`
//! when there is one, else the direct entries of `Cargo.toml`'s
//! dependency tables (an undercount, said so in the report).
use super::{
    matches_expected, not_extracted, not_extracted_message, report_view, ReportView, StageReport,
    ValidationError, ValidationStage, Workspace,
};
use crate::text::{
    chars_eq_str, chars_of, closed_lines_from, concat, count_matches, count_occurrences, decimal,
    lemma_lines_joined, lemma_trim_ignores_cr, line_end, lines, lines_from, split_lines, strip_cr,
    trim, trim_chars, trim_end, trim_start, u64_to_string,
};
use vstd::prelude::*;

verus! {

/// The section headers whose entries are counted.
pub open spec fn is_dependency_header(t: Seq<char>) -> bool {
    t == "[dependencies]"@ || t == "[dev-dependencies]"@ || t == "[build-dependencies]"@
}

/// Scan of `Cargo.toml` lines: (entries counted so far, inside a
/// dependency table). A trimmed line starting with `[` opens a section;
/// inside a dependency table every non-empty line not starting with `#`
/// is one entry.
pub open spec fn dependency_scan(ls: Seq<Seq<char>>) -> (nat, bool)
    decreases ls.len(),
{
    if ls.len() == 0 {
        (0, false)
    } else {
        let (count, in_section) = dependency_scan(ls.drop_last());
        let t = trim(ls.last());
        if t.len() > 0 && t[0] == '[' {
            (count, is_dependency_header(t))
        } else if in_section && t.len() > 0 && t[0] != '#' {
            (count + 1, in_section)
        } else {
            (count, in_section)
        }
    }
}

/// Number of direct dependency entries in a `Cargo.toml` text.
pub open spec fn direct_dependency_count(cargo_toml: Seq<char>) -> nat {
    dependency_scan(lines(cargo_toml)).0
}

proof fn lemma_scan_bound(ls: Seq<Seq<char>>)
    ensures
        dependency_scan(ls).0 <= ls.len(),
    decreases ls.len(),
{
    if ls.len() > 0 {
        lemma_scan_bound(ls.drop_last());
    }
}

/// The trimmed line opens a section (`[...]`).
pub open spec fn opens_section(line: Seq<char>) -> bool {
    trim(line).len() > 0 && trim(line)[0] == '['
}

/// One line of the scan.
pub open spec fn scan_step(state: (nat, bool), line: Seq<char>) -> (nat, bool) {
    let t = trim(line);
    if t.len() > 0 && t[0] == '[' {
        (state.0, is_dependency_header(t))
    } else if state.1 && t.len() > 0 && t[0] != '#' {
        (state.0 + 1, state.1)
    } else {
        state
    }
}

/// The scan of `ls` from `state`.
pub open spec fn scan_with(state: (nat, bool), ls: Seq<Seq<char>>) -> (nat, bool)
    decreases ls.len(),
{
    if ls.len() == 0 {
        state
    } else {
        scan_step(scan_with(state, ls.drop_last()), ls.last())
    }
}

proof fn lemma_scan_from_start(ls: Seq<Seq<char>>)
    ensures
        dependency_scan(ls) == scan_with((0, false), ls),
    decreases ls.len(),
{
    if ls.len() > 0 {
        lemma_scan_from_start(ls.drop_last());
    }
}

proof fn lemma_scan_append(state: (nat, bool), xs: Seq<Seq<char>>, ys: Seq<Seq<char>>)
    ensures
        scan_with(state, xs + ys) == scan_with(scan_with(state, xs), ys),
    decreases ys.len(),
{
    if ys.len() == 0 {
        assert(xs + ys =~= xs);
    } else {
        assert((xs + ys).drop_last() =~= xs + ys.drop_last());
        assert((xs + ys).last() == ys.last());
        lemma_scan_append(state, xs, ys.drop_last());
    }
}

/// Scanning the closed lines of `s` ends where scanning its lines does:
/// they differ only by an empty last line or a `'\r'` before the end.
proof fn lemma_scan_closed_lines(state: (nat, bool), s: Seq<char>, from: int)
    requires
        0 <= from <= s.len(),
    ensures
        scan_with(state, closed_lines_from(s, from)) == scan_with(state, lines_from(s, from)),
    decreases s.len() - from,
{
    crate::text::lemma_line_end_bounds(s, from);
    let e = line_end(s, from);
    let piece = s.subrange(from, e);
    if from == s.len() {
        let empty = Seq::<char>::empty();
        assert(e == s.len());
        assert(piece =~= empty);
        assert(strip_cr(piece) =~= empty);
        assert(closed_lines_from(s, from) =~= seq![empty]);
        assert(trim_start(empty) =~= empty);
        assert(trim_end(empty) =~= empty);
        assert(seq![empty].drop_last() =~= Seq::<Seq<char>>::empty());
        assert(seq![empty].last() == empty);
        assert(scan_with(state, Seq::<Seq<char>>::empty()) == state);
        assert(scan_with(state, seq![empty]) == scan_step(state, empty));
    } else if e < s.len() {
        let p = strip_cr(piece);
        lemma_scan_append(state, seq![p], closed_lines_from(s, e + 1));
        lemma_scan_append(state, seq![p], lines_from(s, e + 1));
        lemma_scan_closed_lines(scan_with(state, seq![p]), s, e + 1);
    } else {
        assert(seq![strip_cr(piece)].drop_last() =~= Seq::<Seq<char>>::empty());
        assert(seq![piece].drop_last() =~= Seq::<Seq<char>>::empty());
        if piece.len() > 0 && piece.last() == '\r' {
            lemma_trim_ignores_cr(piece);
        }
    }
}

/// Lines in no dependency table, none of which opens a section, count
/// nothing and leave the scan outside any dependency table.
proof fn lemma_scan_outside_tables(count: nat, ls: Seq<Seq<char>>)
    requires
        forall|i: int| 0 <= i < ls.len() ==> !opens_section(#[trigger] ls[i]),
    ensures
        scan_with((count, false), ls) == (count, false),
    decreases ls.len(),
{
    if ls.len() > 0 {
        assert(!opens_section(ls[ls.len() - 1]));
        lemma_scan_outside_tables(count, ls.drop_last());
    }
}

/// Appending a `[features]` table none of whose lines opens a section
/// leaves the count unchanged: `[features]` is not a dependency table, so
/// nothing after it is counted.
pub proof fn lemma_features_table_not_counted(s: Seq<char>, u: Seq<char>)
    requires
        forall|i: int| 0 <= i < lines(u).len() ==> !opens_section(#[trigger] lines(u)[i]),
    ensures
        direct_dependency_count(s + "\n[features]\n"@ + u) == direct_dependency_count(s),
{
    reveal_strlit("\n[features]\n");
    reveal_strlit("[features]");
    reveal_strlit("[dependencies]");
    reveal_strlit("[dev-dependencies]");
    reveal_strlit("[build-dependencies]");
    let f = "[features]"@;
    let rest = f + seq!['\n'] + u;
    assert(s + "\n[features]\n"@ + u =~= s + seq!['\n'] + rest);
    lemma_lines_joined(s, rest, 0);
    lemma_lines_joined(f, u, 0);
    // The `[features]` header is one closed line of its own.
    crate::text::lemma_line_end_bounds(f, 0);
    assert(line_end(f, 0) == f.len());
    assert(f.subrange(0, f.len() as int) =~= f);
    assert(strip_cr(f) == f);
    assert(closed_lines_from(f, 0) =~= seq![f]);
    assert(trim_start(f) == f);
    assert(trim_end(f) == f);
    assert(!is_dependency_header(f)) by {
        assert(f.len() != "[dependencies]"@.len());
        assert(f.len() != "[dev-dependencies]"@.len());
        assert(f.len() != "[build-dependencies]"@.len());
    }
    let head = closed_lines_from(s, 0);
    let all = head + (seq![f] + lines(u));
    assert(lines(s + seq!['\n'] + rest) == all);
    lemma_scan_from_start(all);
    lemma_scan_from_start(lines(s));
    lemma_scan_append((0, false), head, seq![f] + lines(u));
    let st = scan_with((0, false), head);
    lemma_scan_closed_lines((0, false), s, 0);
    lemma_scan_append(st, seq![f], lines(u));
    assert(seq![f].drop_last() =~= Seq::<Seq<char>>::empty());
    assert(seq![f].last() == f);
    assert(trim(f) == f);
    assert(scan_step(st, f) == (st.0, false));
    assert(scan_with(st, Seq::<Seq<char>>::empty()) == st);
    assert(scan_with(st, seq![f]) == (st.0, false));
    lemma_scan_outside_tables(st.0, lines(u));
}

/// A small line-oriented counter, not a TOML parser: counts the
/// non-empty, non-comment lines of the `[dependencies]`,
/// `[dev-dependencies]` and `[build-dependencies]` tables.
pub fn count_direct_dependencies(cargo_toml: &str) -> (count: usize)
    ensures
        count == direct_dependency_count(cargo_toml@),
{
    let text = chars_of(cargo_toml);
    let ls = split_lines(&text);
    let ghost all = lines(cargo_toml@);
    let mut count: usize = 0;
    let mut in_section = false;
    let n = ls.len();
    for i in 0..n
        invariant
            n == ls@.len(),
            n == all.len(),
            forall|k: int| 0 <= k < n ==> #[trigger] ls@[k]@ == all[k],
            all == lines(cargo_toml@),
            (count as nat, in_section) == dependency_scan(all.take(i as int)),
            count <= i,
    {
        let t = trim_chars(&ls[i]);
        assert(all.take(i + 1).drop_last() =~= all.take(i as int));
        assert(all.take(i + 1).last() == ls@[i as int]@);
        if t.len() > 0 && t[0] == '[' {
            in_section = chars_eq_str(&t, "[dependencies]") || chars_eq_str(&t, "[dev-dependencies]")
                || chars_eq_str(&t, "[build-dependencies]");
        } else if in_section && t.len() > 0 && t[0] != '#' {
            count = count + 1;
        }
    }
    assert(all.take(n as int) =~= all);
    count
}

/// Number of `[[package]]` entries in a `Cargo.lock` text.
pub open spec fn locked_package_count(cargo_lock: Seq<char>) -> nat {
    count_matches(cargo_lock, "[[package]]"@)
}

pub fn count_locked_packages(cargo_lock: &str) -> (count: usize)
    ensures
        count == locked_package_count(cargo_lock@),
{
    let text = chars_of(cargo_lock);
    let pat = chars_of("[[package]]");
    proof {
        reveal_strlit("[[package]]");
    }
    count_occurrences(&text, &pat)
}

/// The dependency stage's message.
pub open spec fn dependency_message(max: nat, count: nat, source: Seq<char>) -> Seq<char> {
    decimal(count) + " dependencies (limit "@ + decimal(max) + ") — counted from "@ + source
}

/// Report for `count` dependencies against the limit `max`.
pub fn report(max: usize, count: usize, source: &str) -> (r: StageReport)
    ensures
        r.stage@ == "dependency_check"@,
        r.passed == (count <= max),
        r.message@ == dependency_message(max as nat, count as nat, source@),
{
    let c = u64_to_string(count as u64);
    let m = u64_to_string(max as u64);
    let a = concat(c.as_str(), " dependencies (limit ");
    let b = concat(a.as_str(), m.as_str());
    let d = concat(b.as_str(), ") — counted from ");
    let message = concat(d.as_str(), source);
    StageReport { stage: "dependency_check", passed: count <= max, message }
}

/// Where the count comes from when there is a lock file.
pub open spec fn lock_source() -> Seq<char> {
    "Cargo.lock (resolved graph)"@
}

/// Where the count comes from when there is none.
pub open spec fn manifest_source() -> Seq<char> {
    "Cargo.toml direct dependencies only — no Cargo.lock available, so this undercounts the full resolved graph"@
}

/// Checks the dependency count against a configured ceiling.
#[derive(Clone, Copy, Debug)]
pub struct DependencyCheckStage {
    pub max_dependencies: usize,
}

/// What the dependency stage reports for a workspace.
pub open spec fn spec_dependency_stage(max: usize, ws: &Workspace) -> Result<ReportView, ValidationError> {
    match ws.project {
        None => Ok(report_view("dependency_check"@, false, not_extracted_message())),
        Some(Err(e)) => Err(e),
        Some(Ok(files)) => match files.cargo_lock {
            Some(lock) => {
                let count = locked_package_count(lock@);
                Ok(report_view("dependency_check"@, count <= max, dependency_message(max as nat, count, lock_source())))
            },
            None => {
                let toml = match files.cargo_toml { Some(t) => t@, None => Seq::<char>::empty() };
                let count = direct_dependency_count(toml);
                Ok(report_view("dependency_check"@, count <= max, dependency_message(max as nat, count, manifest_source())))
            },
        },
    }
}

impl DependencyCheckStage {
    pub fn new(max_dependencies: usize) -> (s: Self)
        ensures
            s.max_dependencies == max_dependencies,
    {
        DependencyCheckStage { max_dependencies }
    }
}

impl ValidationStage for DependencyCheckStage {
    fn name(&self) -> (n: &'static str)
        ensures
            n@ == "dependency_check"@,
    {
        "dependency_check"
    }

    fn validate(&self, ws: &Workspace) -> (r: Result<StageReport, ValidationError>)
        ensures
            matches_expected(r, spec_dependency_stage(self.max_dependencies, ws)),
    {
        match &ws.project {
            None => Ok(not_extracted("dependency_check")),
            Some(Err(e)) => Err(e.duplicate()),
            Some(Ok(files)) => match &files.cargo_lock {
                Some(lock) => {
                    let count = count_locked_packages(lock.as_str());
                    Ok(report(self.max_dependencies, count, "Cargo.lock (resolved graph)"))
                },
                None => {
                    let count = match &files.cargo_toml {
                        Some(t) => count_direct_dependencies(t.as_str()),
                        None => {
                            proof {
                                reveal_strlit("");
                            }
                            count_direct_dependencies("")
                        },
                    };
                    Ok(
                        report(
                            self.max_dependencies,
                            count,
                            "Cargo.toml direct dependencies only — no Cargo.lock available, \
                             so this undercounts the full resolved graph",
                        ),
                    )
                },
            },
        }
    }
}

} // verus!
