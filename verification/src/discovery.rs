use crate::definitions::{capture_first_groups, first_groups};
use crate::text::{contains, from_chars, has_infix, slice_chars, to_chars, trim, trimmed};
use vstd::prelude::*;

verus! {

/// Why the patterns of a configuration could not be looked for.
#[derive(Debug)]
pub struct PatternError {
    /// What the pattern matcher said of its pattern.
    pub cause: regex::Error,
}

/// The names that a configuration file of the test runner may have, in the
/// order in which they are looked for.
pub open spec fn config_names() -> Seq<Seq<char>> {
    seq![
        "jest.config.js"@,
        "jest.config.ts"@,
        "jest.config.mjs"@,
        "jest.config.cjs"@,
        "jest.config.json"@,
        ".jestrc"@,
        ".jestrc.js"@,
        ".jestrc.json"@,
    ]
}

/// The patterns that find test files where no configuration names any.
pub open spec fn default_patterns() -> Seq<Seq<char>> {
    seq![
        "**/*.test.js"@,
        "**/*.test.ts"@,
        "**/*.test.tsx"@,
        "**/*.test.jsx"@,
        "**/*.spec.js"@,
        "**/*.spec.ts"@,
        "**/*.spec.tsx"@,
        "**/*.spec.jsx"@,
        "**/__tests__/**/*.js"@,
        "**/__tests__/**/*.ts"@,
    ]
}

/// How many directories above the search path are looked at.
pub const PARENT_LEVELS: usize = 3;

/// Computes `config_names`.
pub fn config_file_names() -> (names: Vec<String>)
    ensures
        names.deep_view() == config_names(),
{
    let mut names: Vec<String> = Vec::new();
    names.push("jest.config.js".to_owned());
    names.push("jest.config.ts".to_owned());
    names.push("jest.config.mjs".to_owned());
    names.push("jest.config.cjs".to_owned());
    names.push("jest.config.json".to_owned());
    names.push(".jestrc".to_owned());
    names.push(".jestrc.js".to_owned());
    names.push(".jestrc.json".to_owned());
    assert(names.deep_view() =~= config_names());
    names
}

/// Computes `default_patterns`.
pub fn default_test_matches() -> (patterns: Vec<String>)
    ensures
        patterns.deep_view() == default_patterns(),
{
    let mut patterns: Vec<String> = Vec::new();
    patterns.push("**/*.test.js".to_owned());
    patterns.push("**/*.test.ts".to_owned());
    patterns.push("**/*.test.tsx".to_owned());
    patterns.push("**/*.test.jsx".to_owned());
    patterns.push("**/*.spec.js".to_owned());
    patterns.push("**/*.spec.ts".to_owned());
    patterns.push("**/*.spec.tsx".to_owned());
    patterns.push("**/*.spec.jsx".to_owned());
    patterns.push("**/__tests__/**/*.js".to_owned());
    patterns.push("**/__tests__/**/*.ts".to_owned());
    assert(patterns.deep_view() =~= default_patterns());
    patterns
}

/// Whether the text of a package description configures the test runner.
pub fn declares_jest(content: &str) -> (b: bool)
    ensures
        b == contains(content@, "\"jest\""@),
{
    let text = to_chars(content);
    let key = to_chars("\"jest\"");
    has_infix(text.as_slice(), key.as_slice())
}

/// Whether a path lies below a directory of installed dependencies, whose
/// files are no test files.
pub fn is_dependency_path(path: &str) -> (b: bool)
    ensures
        b == contains(path@, "/node_modules/"@),
{
    let text = to_chars(path);
    let part = to_chars("/node_modules/");
    has_infix(text.as_slice(), part.as_slice())
}

/// Where the configuration of the test runner was found.
#[derive(Debug, Clone, Copy, PartialEq, Eq, Structural)]
pub enum ConfigChoice {
    /// In the package description of the search path.
    Package,
    /// In the file with the name number `name` of `config_names`, in the
    /// directory `level` levels above the search path.
    File { level: usize, name: usize },
    /// Nowhere.
    Missing,
}

/// Whether the table `present` says that the file with name number `name`
/// exists `level` levels above the search path, among the places that are
/// looked at.
pub open spec fn config_present(present: Seq<Seq<bool>>, level: int, name: int) -> bool {
    &&& 0 <= level < present.len()
    &&& level <= PARENT_LEVELS
    &&& 0 <= name < present[level].len()
    &&& name < config_names().len()
    &&& present[level][name]
}

/// Whether the place `(l, n)` is looked at before the place `(level, name)`:
/// nearer directories first, and in one directory the names in their order.
pub open spec fn looked_at_before(l: int, n: int, level: int, name: int) -> bool {
    l < level || (l == level && n < name)
}

/// The table of `present`, as a mathematical value.
pub open spec fn table(present: Seq<Vec<bool>>) -> Seq<Seq<bool>> {
    Seq::new(present.len(), |i: int| present[i]@)
}

/// Chooses the configuration: the package description where it configures
/// the test runner, else the first configuration file that exists, looking
/// in the search path and then in up to three directories above it.
/// `present[level][name]` says whether the file with that name exists at
/// that level.
pub fn choose_config(package_declares: bool, present: &Vec<Vec<bool>>) -> (choice: ConfigChoice)
    ensures
        package_declares ==> choice == ConfigChoice::Package,
        !package_declares ==> match choice {
            ConfigChoice::Package => false,
            ConfigChoice::File { level, name } => config_present(
                table(present@),
                level as int,
                name as int,
            ) && forall|l: int, n: int|
                looked_at_before(l, n, level as int, name as int) ==> !config_present(
                    table(present@),
                    l,
                    n,
                ),
            ConfigChoice::Missing => forall|l: int, n: int| !config_present(table(present@), l, n),
        },
{
    if package_declares {
        return ConfigChoice::Package;
    }
    let mut level: usize = 0;
    while level < present.len() && level <= PARENT_LEVELS
        invariant
            !package_declares,
            level <= present@.len(),
            forall|l: int, n: int| l < level ==> !config_present(table(present@), l, n),
        decreases present@.len() - level,
    {
        let row = &present[level];
        let mut name: usize = 0;
        while name < row.len() && name < 8
            invariant
                !package_declares,
                level < present@.len(),
                level <= PARENT_LEVELS,
                row@ == table(present@)[level as int],
                name <= row@.len(),
                forall|l: int, n: int| l < level ==> !config_present(table(present@), l, n),
                forall|n: int| n < name ==> !config_present(table(present@), level as int, n),
            decreases row@.len() - name,
        {
            if row[name] {
                return ConfigChoice::File { level, name };
            }
            name += 1;
        }
        level += 1;
    }
    ConfigChoice::Missing
}

/// The pattern that finds the list of test patterns in a configuration,
/// with what stands between its square brackets as the first group.
pub open spec fn plain_key_pattern() -> Seq<char> {
    "testMatch\\s*:?\\s*\\[\\s*([\"'][^\"']+[\"'](?:\\s*,\\s*[\"'][^\"']+[\"'])*)\\s*\\]"@
}

/// The same for a configuration that writes the key in quotes.
pub open spec fn quoted_key_pattern() -> Seq<char> {
    "[\"']testMatch[\"']\\s*:?\\s*\\[\\s*([\"'][^\"']+[\"'](?:\\s*,\\s*[\"'][^\"']+[\"'])*)\\s*\\]"@
}

/// Whether `c` is a quotation mark, single or double.
pub open spec fn is_quote(c: char) -> bool {
    c == '"' || c == '\''
}

/// The first position at or after `i` that holds no quotation mark.
pub open spec fn skip_quotes(s: Seq<char>, i: int) -> int
    decreases s.len() - i,
{
    if 0 <= i < s.len() && is_quote(s[i]) {
        skip_quotes(s, i + 1)
    } else {
        i
    }
}

/// The end of `s[from..j]` once the quotation marks at its end are dropped.
pub open spec fn drop_quotes(s: Seq<char>, from: int, j: int) -> int
    decreases j,
{
    if 0 <= from < j <= s.len() && is_quote(s[j - 1]) {
        drop_quotes(s, from, j - 1)
    } else {
        j
    }
}

/// `s` without the quotation marks at its two ends.
pub open spec fn unquoted(s: Seq<char>) -> Seq<char> {
    let from = skip_quotes(s, 0);
    s.subrange(from, drop_quotes(s, from, s.len() as int))
}

/// Computes `unquoted`.
pub fn strip_quotes(s: &[char]) -> (out: Vec<char>)
    ensures
        out@ == unquoted(s@),
{
    let n = s.len();
    let mut a: usize = 0;
    while a < n && (s[a] == '"' || s[a] == '\'')
        invariant
            n == s@.len(),
            a <= n,
            skip_quotes(s@, a as int) == skip_quotes(s@, 0),
        decreases n - a,
    {
        a += 1;
    }
    let mut b: usize = n;
    while a < b && (s[b - 1] == '"' || s[b - 1] == '\'')
        invariant
            n == s@.len(),
            a <= b <= n,
            a == skip_quotes(s@, 0),
            drop_quotes(s@, a as int, b as int) == drop_quotes(s@, a as int, n as int),
        decreases b,
    {
        b -= 1;
    }
    slice_chars(s, a, b)
}

/// The parts of `s` between its commas that are not yet given out when a
/// scan stands at `i` and the part it is in began at `start`.
pub open spec fn parts_scan(s: Seq<char>, start: int, i: int) -> Seq<Seq<char>>
    decreases s.len() - i,
{
    if i < 0 || i >= s.len() {
        seq![s.subrange(start, s.len() as int)]
    } else if s[i] == ',' {
        seq![s.subrange(start, i)] + parts_scan(s, i + 1, i + 1)
    } else {
        parts_scan(s, start, i + 1)
    }
}

/// One pattern of a list: a part without the white space round it and the
/// quotation marks round that.
pub open spec fn pattern_of(part: Seq<char>) -> Seq<char> {
    unquoted(trimmed(part))
}

/// The patterns that the inside of a list holds: its parts between commas,
/// each as `pattern_of` gives it.
pub open spec fn listed_patterns(list: Seq<char>) -> Seq<Seq<char>> {
    parts_scan(list, 0, 0).map_values(|p: Seq<char>| pattern_of(p))
}

/// Computes `listed_patterns`.
pub fn split_patterns(list: &str) -> (out: Vec<String>)
    ensures
        out.deep_view() == listed_patterns(list@),
{
    let s = to_chars(list);
    let n = s.len();
    let mut out: Vec<String> = Vec::new();
    let mut start: usize = 0;
    let mut i: usize = 0;
    let ghost f = |p: Seq<char>| pattern_of(p);
    assert(out.deep_view() =~= Seq::<Seq<char>>::empty());
    assert(out.deep_view() + parts_scan(s@, 0, 0).map_values(f) =~= listed_patterns(s@));
    while i < n
        invariant
            n == s@.len(),
            start <= i <= n,
            f == |p: Seq<char>| pattern_of(p),
            out.deep_view() + parts_scan(s@, start as int, i as int).map_values(f)
                == listed_patterns(s@),
        decreases n - i,
    {
        if s[i] == ',' {
            let part = slice_chars(s.as_slice(), start, i);
            let pattern = from_chars(strip_quotes(trim(part.as_slice()).as_slice()).as_slice());
            let ghost earlier = out.deep_view();
            let ghost name = pattern@;
            out.push(pattern);
            proof {
                let rest = parts_scan(s@, i + 1, i + 1);
                assert(parts_scan(s@, start as int, i as int) == seq![part@] + rest);
                assert((seq![part@] + rest).map_values(f) =~= seq![name] + rest.map_values(f));
                assert(out.deep_view() =~= earlier.push(name));
                assert(earlier.push(name) + rest.map_values(f) =~= earlier + (seq![name]
                    + rest.map_values(f)));
            }
            start = i + 1;
        }
        i += 1;
    }
    let part = slice_chars(s.as_slice(), start, n);
    let pattern = from_chars(strip_quotes(trim(part.as_slice()).as_slice()).as_slice());
    let ghost earlier = out.deep_view();
    let ghost name = pattern@;
    out.push(pattern);
    proof {
        assert(parts_scan(s@, start as int, i as int) == seq![part@]);
        assert(seq![part@].map_values(f) =~= seq![name]);
        assert(out.deep_view() =~= earlier.push(name));
        assert(earlier.push(name) =~= earlier + seq![name]);
    }
    out
}

/// The list that `pattern` finds in `content`: the first group of its
/// first match.
pub open spec fn list_found(pattern: Seq<char>, content: Seq<char>) -> Option<Seq<char>> {
    match first_groups(pattern, content) {
        Some(found) => if found.len() > 0 {
            found[0]
        } else {
            None
        },
        None => None,
    }
}

/// The test patterns that a configuration names: those of its list under
/// the plain key, else those of its list under the quoted key, else the
/// default patterns.
pub open spec fn configured_patterns(content: Seq<char>) -> Seq<Seq<char>> {
    match list_found(plain_key_pattern(), content) {
        Some(list) => listed_patterns(list),
        None => match list_found(quoted_key_pattern(), content) {
            Some(list) => listed_patterns(list),
            None => default_patterns(),
        },
    }
}

/// The test patterns of a configuration, given the first groups that the
/// two key patterns captured in it.
pub fn patterns_from(plain: &Vec<Option<String>>, quoted: &Vec<Option<String>>) -> (out: Vec<
    String,
>)
    ensures
        out.deep_view() == match first_list(plain.deep_view()) {
            Some(list) => listed_patterns(list),
            None => match first_list(quoted.deep_view()) {
                Some(list) => listed_patterns(list),
                None => default_patterns(),
            },
        },
{
    if plain.len() > 0 {
        assert(plain.deep_view()[0] == plain@[0].deep_view());
        match &plain[0] {
            Some(list) => {
                return split_patterns(list.as_str());
            },
            None => {},
        }
    }
    if quoted.len() > 0 {
        assert(quoted.deep_view()[0] == quoted@[0].deep_view());
        match &quoted[0] {
            Some(list) => {
                return split_patterns(list.as_str());
            },
            None => {},
        }
    }
    default_test_matches()
}

/// The first group of the first of the matches `found`.
pub open spec fn first_list(found: Seq<Option<Seq<char>>>) -> Option<Seq<char>> {
    if found.len() > 0 {
        found[0]
    } else {
        None
    }
}

/// Whether the two key patterns can be used on `content` as far as they
/// are needed: the plain one, and the quoted one where the plain one finds
/// no list.
pub open spec fn patterns_usable(content: Seq<char>) -> bool {
    &&& first_groups(plain_key_pattern(), content) is Some
    &&& list_found(plain_key_pattern(), content) is None ==> first_groups(
        quoted_key_pattern(),
        content,
    ) is Some
}

/// Where the test patterns of a configuration come from.
#[derive(Debug, Clone, Copy, PartialEq, Eq, Structural)]
pub enum PatternSource {
    /// From the list under the plain key.
    PlainKey,
    /// From the list under the quoted key.
    QuotedKey,
    /// From nowhere in the configuration: they are the default patterns.
    Defaults,
}

/// Where the test patterns of `content` come from: the plain key where it
/// has a list, else the quoted key where that has one, else the defaults.
pub open spec fn configured_source(content: Seq<char>) -> PatternSource {
    if list_found(plain_key_pattern(), content) is Some {
        PatternSource::PlainKey
    } else if list_found(quoted_key_pattern(), content) is Some {
        PatternSource::QuotedKey
    } else {
        PatternSource::Defaults
    }
}

/// Where the test patterns come from, given the first groups that the two
/// key patterns captured.
pub fn source_from(plain: &Vec<Option<String>>, quoted: &Vec<Option<String>>) -> (source:
    PatternSource)
    ensures
        source == (if first_list(plain.deep_view()) is Some {
            PatternSource::PlainKey
        } else if first_list(quoted.deep_view()) is Some {
            PatternSource::QuotedKey
        } else {
            PatternSource::Defaults
        }),
{
    if plain.len() > 0 {
        assert(plain.deep_view()[0] == plain@[0].deep_view());
        if plain[0].is_some() {
            return PatternSource::PlainKey;
        }
    }
    if quoted.len() > 0 {
        assert(quoted.deep_view()[0] == quoted@[0].deep_view());
        if quoted[0].is_some() {
            return PatternSource::QuotedKey;
        }
    }
    PatternSource::Defaults
}

/// The test patterns that the text of a configuration names, and where
/// they come from. An error comes exactly where a key pattern that is
/// needed cannot be used.
pub fn test_matches_and_source(content: &str) -> (r: Result<
    (Vec<String>, PatternSource),
    PatternError,
>)
    ensures
        r is Ok <==> patterns_usable(content@),
        r is Ok ==> r->Ok_0.0.deep_view() == configured_patterns(content@) && r->Ok_0.1
            == configured_source(content@),
{
    let plain = match capture_first_groups(
        "testMatch\\s*:?\\s*\\[\\s*([\"'][^\"']+[\"'](?:\\s*,\\s*[\"'][^\"']+[\"'])*)\\s*\\]",
        content,
    ) {
        Ok(found) => found,
        Err(cause) => {
            return Err(PatternError { cause });
        },
    };
    let none: Vec<Option<String>> = Vec::new();
    if source_from(&plain, &none) == PatternSource::PlainKey {
        return Ok((patterns_from(&plain, &none), PatternSource::PlainKey));
    }
    let quoted = match capture_first_groups(
        "[\"']testMatch[\"']\\s*:?\\s*\\[\\s*([\"'][^\"']+[\"'](?:\\s*,\\s*[\"'][^\"']+[\"'])*)\\s*\\]",
        content,
    ) {
        Ok(found) => found,
        Err(cause) => {
            return Err(PatternError { cause });
        },
    };
    Ok((patterns_from(&plain, &quoted), source_from(&plain, &quoted)))
}

/// The test patterns that the text of a configuration names. An error
/// comes exactly where a key pattern that is needed cannot be used.
pub fn test_matches_in(content: &str) -> (r: Result<Vec<String>, PatternError>)
    ensures
        r is Ok <==> patterns_usable(content@),
        r is Ok ==> r->Ok_0.deep_view() == configured_patterns(content@),
{
    match test_matches_and_source(content) {
        Ok((patterns, _)) => Ok(patterns),
        Err(e) => Err(e),
    }
}

} // verus!
