use vstd::prelude::*;

use crate::discovery::views;
use crate::pattern::{captures_view, group, group_views, regex_captures, regex_compiles, Pattern};
use crate::time::{representable_millis, Timestamp, MAX_UTC_MILLIS, MIN_UTC_MILLIS};

verus! {

/// An `@Ignore` annotation at the end of a line, with an optional quoted reason.
pub const IGNORE_ANNOTATION: &'static str = "@Ignore(\\(\"(.+)\"\\))?$";

/// A `@Developer(Developers.<name>)` annotation.
pub const DEVELOPER_ANNOTATION: &'static str = "@Developer\\(Developers\\.(.+)\\)";

/// A `@TestModule(TestModules.<name>)` annotation.
pub const TEST_MODULE_ANNOTATION: &'static str = "@TestModule\\(TestModules\\.(.+)\\)";

/// The author time in `git blame --porcelain` output.
pub const GIT_AUTHOR_TIME: &'static str = "author-time ([0-9]+)";

/// An ignored test is stale once it has been ignored for more than this many whole days.
pub const STALE_AFTER_DAYS: i64 = 270;

/// Milliseconds in a day.
pub const MILLIS_PER_DAY: i64 = 86400000;

/// The capture results of `pattern` on each of `lines`, in order.
pub open spec fn line_captures(pattern: Seq<char>, lines: Seq<Seq<char>>) -> Seq<
    Option<Seq<Option<Seq<char>>>>,
> {
    lines.map_values(|l: Seq<char>| regex_captures(pattern, l))
}

/// The views of a list of capture results.
pub open spec fn captures_views(caps: Seq<Option<Vec<Option<String>>>>) -> Seq<
    Option<Seq<Option<Seq<char>>>>,
> {
    caps.map_values(|c: Option<Vec<Option<String>>>| captures_view(c))
}

/// The first of the capture results `caps`, from index `i` on, that is a match: its
/// index and its groups.
pub open spec fn first_captured_from(caps: Seq<Option<Seq<Option<Seq<char>>>>>, i: int) -> Option<
    (int, Seq<Option<Seq<char>>>),
>
    decreases caps.len() - i,
{
    if i < 0 || i >= caps.len() {
        None
    } else {
        match caps[i] {
            Some(c) => Some((i, c)),
            None => first_captured_from(caps, i + 1),
        }
    }
}

/// Group `k` of the first match among the capture results `caps`.
pub open spec fn first_group_in(caps: Seq<Option<Seq<Option<Seq<char>>>>>, k: int) -> Option<Seq<char>> {
    match first_captured_from(caps, 0) {
        Some((_, c)) => group(c, k),
        None => None,
    }
}

/// Group `k` of the first line of `lines` in which `pattern` matches.
pub open spec fn first_group(pattern: Seq<char>, lines: Seq<Seq<char>>, k: int) -> Option<Seq<char>> {
    first_group_in(line_captures(pattern, lines), k)
}

/// Whether `name` ends with `.kt`.
pub open spec fn is_kotlin_name(name: Seq<char>) -> bool {
    name.len() >= 3 && name.subrange(name.len() - 3, name.len() as int) == seq!['.', 'k', 't']
}

/// The view of an optional string.
pub open spec fn opt_view(s: Option<String>) -> Option<Seq<char>> {
    match s {
        Some(v) => Some(v@),
        None => None,
    }
}

/// The value of a string of decimal digits.
pub open spec fn digits_value(s: Seq<char>) -> int
    decreases s.len(),
{
    if s.len() == 0 {
        0
    } else {
        digits_value(s.drop_last()) * 10 + (s.last() as int - '0' as int)
    }
}

/// Every character of `s` is a decimal digit.
pub open spec fn all_digits(s: Seq<char>) -> bool {
    forall|i: int| 0 <= i < s.len() ==> '0' <= #[trigger] s[i] <= '9'
}

/// The value of `s` as a non-empty string of decimal digits that fits in an `i64`.
pub open spec fn decimal_of(s: Seq<char>) -> Option<int> {
    if s.len() > 0 && all_digits(s) && digits_value(s) <= i64::MAX {
        Some(digits_value(s))
    } else {
        None
    }
}

/// What the scan of a source file found about its ignored test.
#[derive(Debug)]
pub struct IgnoreScan {
    /// Number of the line with the `@Ignore` annotation, counted from 1.
    pub line_number: usize,
    /// The reason given in the annotation.
    pub comment: Option<String>,
    /// The test's author.
    pub author: Option<String>,
    /// The test's module.
    pub test_module: Option<String>,
}

/// An ignored test.
#[derive(Debug)]
pub struct IgnoreInfo {
    /// Name of the file.
    pub file_name: String,
    /// The reason given in the `@Ignore` annotation.
    pub comment: Option<String>,
    /// The test's author.
    pub author: Option<String>,
    /// The test's module.
    pub test_module: Option<String>,
    /// When the annotation was put in place.
    pub ignore_date: Timestamp,
}

/// The annotation patterns, compiled once.
pub struct IgnoreScanner {
    ignore: Pattern,
    developer: Pattern,
    test_module: Pattern,
    git_time: Pattern,
}

impl IgnoreScanner {
    /// Each pattern holds the expression that its name says.
    pub closed spec fn wf(&self) -> bool {
        &&& self.ignore.source() == IGNORE_ANNOTATION@
        &&& self.developer.source() == DEVELOPER_ANNOTATION@
        &&& self.test_module.source() == TEST_MODULE_ANNOTATION@
        &&& self.git_time.source() == GIT_AUTHOR_TIME@
    }

    /// Compiles the patterns; `None` where one of them does not compile.
    pub fn new() -> (r: Option<IgnoreScanner>)
        ensures
            r is Some <==> (regex_compiles(IGNORE_ANNOTATION@) && regex_compiles(DEVELOPER_ANNOTATION@)
                && regex_compiles(TEST_MODULE_ANNOTATION@) && regex_compiles(GIT_AUTHOR_TIME@)),
            r matches Some(s) ==> s.wf(),
    {
        let ignore = Pattern::compile(IGNORE_ANNOTATION)?;
        let developer = Pattern::compile(DEVELOPER_ANNOTATION)?;
        let test_module = Pattern::compile(TEST_MODULE_ANNOTATION)?;
        let git_time = Pattern::compile(GIT_AUTHOR_TIME)?;
        Some(IgnoreScanner { ignore, developer, test_module, git_time })
    }
}

/// The capture results of `pattern` on each of `lines`.
fn captures_of_lines(pattern: &Pattern, lines: &Vec<String>) -> (r: Vec<Option<Vec<Option<String>>>>)
    ensures
        captures_views(r@) == line_captures(pattern.source(), views(lines@)),
{
    let mut caps: Vec<Option<Vec<Option<String>>>> = Vec::new();
    let n = lines.len();
    for i in 0..n
        invariant
            n == lines@.len(),
            captures_views(caps@) == line_captures(pattern.source(), views(lines@).take(i as int)),
    {
        let c = pattern.captures(lines[i].as_str());
        let ghost before = caps@;
        caps.push(c);
        assert(views(lines@).take(i + 1) =~= views(lines@).take(i as int).push(lines@[i as int]@));
        assert(captures_views(caps@) =~= captures_views(before).push(captures_view(c)));
        assert(line_captures(pattern.source(), views(lines@).take(i + 1)) =~= line_captures(
            pattern.source(),
            views(lines@).take(i as int),
        ).push(regex_captures(pattern.source(), lines@[i as int]@)));
    }
    assert(views(lines@).take(n as int) =~= views(lines@));
    caps
}

/// The index of the first match among `caps`.
fn first_captured_index(caps: &Vec<Option<Vec<Option<String>>>>) -> (r: Option<usize>)
    ensures
        match first_captured_from(captures_views(caps@), 0) {
            None => r is None,
            Some((i, c)) => r matches Some(k) && k == i && 0 <= i < caps@.len() && caps@[i] is Some
                && captures_view(caps@[i]) == Some(c),
        },
{
    let n = caps.len();
    for i in 0..n
        invariant
            n == caps@.len(),
            first_captured_from(captures_views(caps@), 0) == first_captured_from(
                captures_views(caps@),
                i as int,
            ),
    {
        if caps[i].is_some() {
            return Some(i);
        }
    }
    None
}

/// Group `k` of `groups`, where there is one and it took part in the match.
fn take_group(groups: Vec<Option<String>>, k: usize) -> (r: Option<String>)
    ensures
        opt_view(r) == group(group_views(groups@), k as int),
{
    let mut groups = groups;
    if k < groups.len() {
        groups.swap_remove(k)
    } else {
        None
    }
}

/// Takes the groups of capture result `i` out of `caps`.
fn take_captures(caps: Vec<Option<Vec<Option<String>>>>, i: usize) -> (r: Vec<Option<String>>)
    requires
        i < caps@.len(),
        caps@[i as int] is Some,
    ensures
        captures_view(caps@[i as int]) == Some(group_views(r@)),
{
    let mut caps = caps;
    match caps.swap_remove(i) {
        Some(g) => g,
        None => Vec::new(),
    }
}

/// Group `k` of the first match among `caps`.
fn first_group_of(caps: Vec<Option<Vec<Option<String>>>>, k: usize) -> (r: Option<String>)
    ensures
        opt_view(r) == first_group_in(captures_views(caps@), k as int),
{
    match first_captured_index(&caps) {
        Some(i) => {
            assert(first_captured_from(captures_views(caps@), 0) is Some);
            take_group(take_captures(caps, i), k)
        },
        None => None,
    }
}

/// The ignored test that capture results show, each list holding one result per line
/// of a source file: the first line that `ignore` matches, with its group 2 as the
/// reason, and group 1 of the first match in `developer` and in `test_module`.
/// `None` where `ignore` holds no match.
pub fn scan_captures(
    ignore: Vec<Option<Vec<Option<String>>>>,
    developer: Vec<Option<Vec<Option<String>>>>,
    test_module: Vec<Option<Vec<Option<String>>>>,
) -> (r: Option<IgnoreScan>)
    ensures
        match first_captured_from(captures_views(ignore@), 0) {
            None => r is None,
            Some((i, c)) => r matches Some(s) && s.line_number == i + 1 && opt_view(s.comment) == group(
                c,
                2,
            ) && opt_view(s.author) == first_group_in(captures_views(developer@), 1) && opt_view(
                s.test_module,
            ) == first_group_in(captures_views(test_module@), 1),
        },
{
    match first_captured_index(&ignore) {
        None => None,
        Some(index) => {
            assert(first_captured_from(captures_views(ignore@), 0) is Some);
            let n = ignore.len();
            assert(index < n);
            let comment = take_group(take_captures(ignore, index), 2);
            let author = first_group_of(developer, 1);
            let test_module = first_group_of(test_module, 1);
            Some(IgnoreScan { line_number: index + 1, comment, author, test_module })
        },
    }
}

/// The author time that capture results of `author-time ([0-9]+)` show, one result
/// per line of `git blame --porcelain` output: group 1 of the first match, read as
/// seconds since the Unix epoch. `None` where there is no match, or its number is no
/// instant.
pub fn author_time_of_captures(caps: Vec<Option<Vec<Option<String>>>>) -> (r: Option<Timestamp>)
    ensures
        match first_group_in(captures_views(caps@), 1) {
            Some(digits) => match decimal_of(digits) {
                Some(secs) => r == (if representable_millis(secs * 1000) {
                    Some(Timestamp { millis: (secs * 1000) as i64 })
                } else {
                    None::<Timestamp>
                }),
                None => r is None,
            },
            None => r is None,
        },
{
    let digits = first_group_of(caps, 1)?;
    let secs = parse_decimal(&digits)?;
    Timestamp::from_seconds(secs)
}

impl IgnoreScanner {
    /// Scans the lines of a source file for an ignored test: the first line with an
    /// `@Ignore` annotation, its reason, and the first `@Developer` and `@TestModule`
    /// annotations of the file. `None` where no line holds `@Ignore`.
    pub fn scan_lines(&self, lines: &Vec<String>) -> (r: Option<IgnoreScan>)
        requires
            self.wf(),
        ensures
            match first_captured_from(line_captures(IGNORE_ANNOTATION@, views(lines@)), 0) {
                None => r is None,
                Some((i, c)) => r matches Some(s) && s.line_number == i + 1 && opt_view(s.comment)
                    == group(c, 2) && opt_view(s.author) == first_group(
                    DEVELOPER_ANNOTATION@,
                    views(lines@),
                    1,
                ) && opt_view(s.test_module) == first_group(TEST_MODULE_ANNOTATION@, views(lines@), 1),
            },
    {
        let ignore = captures_of_lines(&self.ignore, lines);
        let developer = captures_of_lines(&self.developer, lines);
        let test_module = captures_of_lines(&self.test_module, lines);
        scan_captures(ignore, developer, test_module)
    }

    /// The author time in the lines of `git blame --porcelain` output: the number after
    /// the first `author-time `, as seconds since the Unix epoch. `None` where no line
    /// holds it, or the number is no instant.
    pub fn author_time(&self, output: &Vec<String>) -> (r: Option<Timestamp>)
        requires
            self.wf(),
        ensures
            match first_group(GIT_AUTHOR_TIME@, views(output@), 1) {
                Some(digits) => match decimal_of(digits) {
                    Some(secs) => r == (if representable_millis(secs * 1000) {
                        Some(Timestamp { millis: (secs * 1000) as i64 })
                    } else {
                        None::<Timestamp>
                    }),
                    None => r is None,
                },
                None => r is None,
            },
    {
        author_time_of_captures(captures_of_lines(&self.git_time, output))
    }
}

/// Whether a file named `name` is a Kotlin source, its name ending with `.kt`.
pub fn is_kotlin_source(name: &str) -> (r: bool)
    ensures
        r == is_kotlin_name(name@),
{
    proof {
        reveal_strlit(".kt");
    }
    let n = name.unicode_len();
    if n < 3 {
        return false;
    }
    let a = name.get_char(n - 3);
    let b = name.get_char(n - 2);
    let c = name.get_char(n - 1);
    let r = a == '.' && b == 'k' && c == 't';
    assert(r == (name@.subrange(n - 3, n as int) =~= seq!['.', 'k', 't']));
    r
}

proof fn lemma_digits_grow(s: Seq<char>, i: int, j: int)
    requires
        0 <= i <= j <= s.len(),
        all_digits(s),
    ensures
        0 <= digits_value(s.take(i)) <= digits_value(s.take(j)),
    decreases j - i,
{
    if i < j {
        lemma_digits_grow(s, i, j - 1);
        let p = s.take(j);
        assert(p.drop_last() =~= s.take(j - 1));
        assert('0' <= s[j - 1] <= '9');
        assert(p.last() == s[j - 1]);
    } else {
        lemma_digits_nonneg(s.take(i));
    }
}

proof fn lemma_digits_nonneg(s: Seq<char>)
    requires
        all_digits(s),
    ensures
        digits_value(s) >= 0,
    decreases s.len(),
{
    if s.len() > 0 {
        assert(all_digits(s.drop_last())) by {
            assert forall|i: int| 0 <= i < s.drop_last().len() implies '0' <= #[trigger] s.drop_last()[i] <= '9' by {
                assert(s.drop_last()[i] == s[i]);
            }
        }
        lemma_digits_nonneg(s.drop_last());
        assert('0' <= s[s.len() - 1] <= '9');
    }
}

/// The value of a non-empty string of decimal digits, where it fits in an `i64`.
pub fn parse_decimal(s: &String) -> (r: Option<i64>)
    ensures
        r matches Some(v) ==> decimal_of(s@) == Some(v as int),
        r is None ==> decimal_of(s@) is None,
{
    let text = s.as_str();
    let n = text.unicode_len();
    if n == 0 {
        return None;
    }
    let mut value: i64 = 0;
    assert(s@.take(0) =~= Seq::<char>::empty());
    for i in 0..n
        invariant
            n == s@.len(),
            text@ == s@,
            forall|k: int| 0 <= k < i ==> '0' <= #[trigger] s@[k] <= '9',
            value as int == digits_value(s@.take(i as int)),
    {
        let c = text.get_char(i);
        if c < '0' || c > '9' {
            assert(!all_digits(s@)) by {
                assert(s@[i as int] == c);
            }
            return None;
        }
        let d = (c as u32 - '0' as u32) as i64;
        let ghost p = s@.take(i + 1);
        assert(p.drop_last() =~= s@.take(i as int));
        assert(p.last() == c);
        if value > (i64::MAX - d) / 10 {
            proof {
                assert(digits_value(p) > i64::MAX) by (nonlinear_arith)
                    requires
                        value > (i64::MAX - d) / 10,
                        digits_value(p) == value * 10 + d,
                        0 <= d <= 9,
                ;
                if all_digits(s@) {
                    lemma_digits_grow(s@, i + 1, n as int);
                    assert(s@.take(n as int) =~= s@);
                }
            }
            return None;
        }
        assert(value * 10 + d <= i64::MAX) by (nonlinear_arith)
            requires
                value <= (i64::MAX - d) / 10,
                0 <= d <= 9,
        ;
        assert(value >= 0) by {
            lemma_digits_nonneg(s@.take(i as int));
        }
        value = value * 10 + d;
    }
    assert(s@.take(n as int) =~= s@);
    Some(value)
}

/// Whether a test ignored at `ignore_date` has been ignored, at `now`, for more than
/// `STALE_AFTER_DAYS` whole days.
pub fn is_stale(ignore_date: Timestamp, now: Timestamp) -> (r: bool)
    requires
        ignore_date.wf(),
        now.wf(),
    ensures
        r == (now.millis - ignore_date.millis >= (STALE_AFTER_DAYS + 1) * MILLIS_PER_DAY),
{
    now.millis - ignore_date.millis >= (STALE_AFTER_DAYS + 1) * MILLIS_PER_DAY
}

} // verus!
