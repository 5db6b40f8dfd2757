//! Checks that a component manifest is consistent with the package that
//! carries it: the binary that the manifest names must be among the targets of
//! the package manifest.

use serde_json::Value;
use vstd::prelude::*;
use vstd::string::*;

verus! {

/// The number of elements of `s` before the first `c`, or all of them where
/// there is no `c`.
pub open spec fn spec_index_of(s: Seq<char>, c: char) -> int
    decreases s.len(),
{
    if s.len() == 0 {
        0
    } else if s[0] == c {
        0
    } else {
        1 + spec_index_of(s.drop_first(), c)
    }
}

/// A position before which there is no `c`, and which holds the first `c` or
/// is the end, is what `spec_index_of` gives.
pub proof fn lemma_index_of(s: Seq<char>, c: char, at: int)
    requires
        0 <= at <= s.len(),
        forall|i: int| 0 <= i < at ==> s[i] != c,
        at < s.len() ==> s[at] == c,
    ensures
        spec_index_of(s, c) == at,
    decreases s.len(),
{
    if s.len() > 0 && at > 0 {
        lemma_index_of(s.drop_first(), c, at - 1);
    }
}

/// The characters of `s`.
fn chars_of(s: &str) -> (chars: Vec<char>)
    ensures
        chars@ == s@,
{
    broadcast use axiom_spec_iter;

    let mut chars: Vec<char> = Vec::new();
    for c in it: s.chars()
        invariant
            it.seq() == s@,
            chars@ == it.seq().subrange(0, it.index()),
    {
        chars.push(c);
        assert(chars@ =~= it.seq().subrange(0, it.index() + 1));
    }
    assert(chars@ =~= s@);
    chars
}


/// A line as it stood before the line feed that ended it: without the
/// carriage return before the line feed, where there was one.
pub open spec fn spec_strip_cr(line: Seq<char>) -> Seq<char> {
    if line.len() > 0 && line.last() == '\r' {
        line.drop_last()
    } else {
        line
    }
}

/// The target that a line of a package manifest names: what stands before
/// the first `=`, or the whole line where it has none.
pub open spec fn spec_target(line: Seq<char>) -> Seq<char> {
    line.subrange(0, spec_index_of(line, '='))
}

/// The targets that a package manifest names, one for each of its lines. A
/// line ends with a line feed, or with a carriage return and a line feed; the
/// last line may end with the text.
pub open spec fn spec_package_targets(manifest: Seq<char>) -> Seq<Seq<char>>
    decreases manifest.len(),
{
    if manifest.len() == 0 {
        Seq::empty()
    } else {
        let end = spec_index_of(manifest, '\n');
        if 0 <= end < manifest.len() {
            seq![spec_target(spec_strip_cr(manifest.subrange(0, end)))] + spec_package_targets(
                manifest.subrange(end + 1, manifest.len() as int),
            )
        } else {
            seq![spec_target(manifest)]
        }
    }
}

/// The targets that a package manifest names: of each line what stands before
/// the first `=`.
pub fn get_package_targets(package_manifest: &str) -> (targets: Vec<String>)
    ensures
        targets.deep_view() == spec_package_targets(package_manifest@),
{
    let chars = chars_of(package_manifest);
    let n = chars.len();
    let mut targets: Vec<String> = Vec::new();
    let mut start: usize = 0;
    assert(chars@.subrange(0, n as int) =~= chars@);
    assert(targets.deep_view() =~= Seq::<Seq<char>>::empty());
    while start < n
        invariant
            n == chars@.len(),
            chars@ == package_manifest@,
            start <= n,
            targets.deep_view() + spec_package_targets(chars@.subrange(start as int, n as int))
                == spec_package_targets(chars@),
        decreases n - start,
    {
        let ghost rest = chars@.subrange(start as int, n as int);
        let ghost done = targets.deep_view();
        let mut end: usize = start;
        while end < n && chars[end] != '\n'
            invariant
                n == chars@.len(),
                start <= end <= n,
                forall|i: int| start <= i < end ==> chars@[i] != '\n',
            decreases n - end,
        {
            end += 1;
        }
        let mut line_end = end;
        if end < n && line_end > start && chars[line_end - 1] == '\r' {
            line_end -= 1;
        }
        let mut eq: usize = start;
        while eq < line_end && chars[eq] != '='
            invariant
                n == chars@.len(),
                start <= eq <= line_end <= n,
                forall|i: int| start <= i < eq ==> chars@[i] != '=',
            decreases line_end - eq,
        {
            eq += 1;
        }
        let target = String::from_str(package_manifest.substring_char(start, eq));
        proof {
            let line = chars@.subrange(start as int, line_end as int);
            assert forall|i: int| 0 <= i < end - start implies rest[i] != '\n' by {
                assert(rest[i] == chars@[start + i]);
            }
            lemma_index_of(rest, '\n', end - start);
            assert forall|i: int| 0 <= i < eq - start implies line[i] != '=' by {
                assert(line[i] == chars@[start + i]);
            }
            lemma_index_of(line, '=', eq - start);
            assert(target@ =~= spec_target(line));
            if end < n {
                assert(rest.subrange(0, end - start) =~= chars@.subrange(start as int, end as int));
                assert(spec_strip_cr(chars@.subrange(start as int, end as int)) =~= line);
                assert(rest.subrange(end - start + 1, rest.len() as int) =~= chars@.subrange(
                    end + 1,
                    n as int,
                ));
            } else {
                assert(line =~= rest);
                assert(chars@.subrange(n as int, n as int) =~= Seq::<char>::empty());
            }
            assert(spec_package_targets(rest) =~= seq![target@] + spec_package_targets(
                chars@.subrange(if end < n { end + 1 } else { n as int }, n as int),
            ));
        }
        targets.push(target);
        proof {
            assert(targets.deep_view() =~= done.push(target@));
            assert(done.push(target@) + spec_package_targets(
                chars@.subrange(if end < n { end + 1 } else { n as int }, n as int),
            ) =~= done + (seq![target@] + spec_package_targets(
                chars@.subrange(if end < n { end + 1 } else { n as int }, n as int),
            )));
        }
        start = if end < n {
            end + 1
        } else {
            n
        };
    }
    assert(chars@.subrange(n as int, n as int) =~= Seq::<char>::empty());
    assert(targets.deep_view() + Seq::<Seq<char>>::empty() =~= targets.deep_view());
    targets
}


/// The lesser of two numbers.
pub open spec fn spec_min(x: nat, y: nat) -> nat {
    if x <= y {
        x
    } else {
        y
    }
}

/// The least number of insertions, deletions and substitutions of single
/// characters that change `a` into `b`. To change a text into nothing is to
/// delete all of it, and to change nothing into a text is to insert all of
/// it. Else the last characters are dealt with in the cheapest of three ways:
/// the one is changed into the other, at a cost where they differ; or the
/// last of `a` is deleted; or the last of `b` is inserted.
pub open spec fn levenshtein_distance(a: Seq<char>, b: Seq<char>) -> nat
    decreases a.len() + b.len(),
{
    if a.len() == 0 {
        b.len()
    } else if b.len() == 0 {
        a.len()
    } else {
        let substituted = levenshtein_distance(a.drop_last(), b.drop_last()) + if a.last()
            == b.last() {
            0nat
        } else {
            1nat
        };
        let deleted = levenshtein_distance(a.drop_last(), b) + 1;
        let inserted = levenshtein_distance(a, b.drop_last()) + 1;
        spec_min(substituted, spec_min(deleted, inserted))
    }
}

pub assume_specification[ strsim::levenshtein ](a: &str, b: &str) -> (distance: usize)
    ensures
        distance == levenshtein_distance(a@, b@),
;

/// The text that shows `s` as a string literal: in double quotes, with what
/// cannot stand in a literal as it is written as an escape.
pub uninterp spec fn spec_debug_str(s: Seq<char>) -> Seq<char>;

/// The text that shows `list` as a list of string literals.
pub uninterp spec fn spec_debug_list(list: Seq<Seq<char>>) -> Seq<char>;

/// `Debug` for `str`, through `format!`: the string as a literal.
#[verifier::external_body]
fn debug_str(s: &str) -> (shown: String)
    ensures
        shown@ == spec_debug_str(s@),
{
    format!("{:?}", s)
}

/// `Debug` for `Vec<String>`, through `format!`: the strings as a list of
/// literals.
#[verifier::external_body]
fn debug_list(list: &Vec<String>) -> (shown: String)
    ensures
        shown@ == spec_debug_list(list.deep_view()),
{
    format!("{:?}", list)
}

/// Whether `index` is the first place of the least of `distances`.
pub open spec fn spec_is_nearest(distances: Seq<usize>, index: int) -> bool {
    &&& 0 <= index < distances.len()
    &&& forall|i: int| 0 <= i < index ==> distances[i] > distances[index]
    &&& forall|i: int| index <= i < distances.len() ==> distances[i] >= distances[index]
}

/// The first place of the least is one place: no two places are both it.
pub proof fn lemma_nearest_is_unique(distances: Seq<usize>, first: int, second: int)
    requires
        spec_is_nearest(distances, first),
        spec_is_nearest(distances, second),
    ensures
        first == second,
{
    if first < second {
        assert(distances[first] > distances[second]);
        assert(distances[second] >= distances[first]);
    } else if second < first {
        assert(distances[second] > distances[first]);
        assert(distances[first] >= distances[second]);
    }
}

/// The first place of the least of `distances`, which are not empty.
pub fn nearest_index(distances: &Vec<usize>) -> (index: usize)
    requires
        distances@.len() > 0,
    ensures
        spec_is_nearest(distances@, index as int),
{
    let mut nearest: usize = 0;
    let mut i: usize = 1;
    while i < distances.len()
        invariant
            0 <= nearest < i <= distances@.len(),
            forall|j: int| 0 <= j < nearest ==> distances@[j] > distances@[nearest as int],
            forall|j: int| nearest <= j < i ==> distances@[j] >= distances@[nearest as int],
        decreases distances.len() - i,
    {
        if distances[i] < distances[nearest] {
            nearest = i;
        }
        i += 1;
    }
    nearest
}

/// The distances from `reference` to each of `candidates`.
pub open spec fn spec_distances(reference: Seq<char>, candidates: Seq<Seq<char>>) -> Seq<usize> {
    Seq::new(candidates.len(), |i: int| levenshtein_distance(reference, candidates[i]) as usize)
}

/// The candidate that is nearest to `reference`: of those at the least
/// distance, the first. There must be a candidate.
pub fn get_nearest_match<'a>(reference: &'a str, candidates: &'a Vec<String>) -> (nearest: &'a str)
    requires
        candidates@.len() > 0,
    ensures
        exists|index: int|
            spec_is_nearest(spec_distances(reference@, candidates.deep_view()), index)
                && nearest@ == #[trigger] candidates.deep_view()[index],
{
    let mut distances: Vec<usize> = Vec::new();
    let mut i: usize = 0;
    while i < candidates.len()
        invariant
            i <= candidates@.len(),
            distances@.len() == i,
            forall|j: int|
                0 <= j < i ==> distances@[j] == levenshtein_distance(
                    reference@,
                    #[trigger] candidates@[j]@,
                ),
        decreases candidates.len() - i,
    {
        distances.push(strsim::levenshtein(reference, candidates[i].as_str()));
        i += 1;
    }
    let index = nearest_index(&distances);
    proof {
        assert forall|j: int| 0 <= j < candidates@.len() implies candidates.deep_view()[j]
            == candidates@[j]@ by {}
        assert(distances@ =~= spec_distances(reference@, candidates.deep_view()));
        assert(candidates.deep_view()[index as int] == candidates@[index as int]@);
    }
    candidates[index].as_str()
}

/// What the validation reads of a component manifest.
#[derive(Debug, PartialEq, Eq)]
pub struct ComponentManifest {
    /// The runner of the component, where the manifest names one.
    pub runner: Option<String>,
    /// The binary of the program, where the manifest names one.
    pub program_binary: Option<String>,
}

/// What can be wrong with the manifests.
#[derive(Debug, PartialEq, Eq)]
pub enum Error {
    /// The arguments make no sense, for the reason given.
    InvalidArgs(String),
    /// The manifests do not agree, as the message says.
    Validate(String),
}

#[verifier::external_type_specification]
#[verifier::external_body]
pub struct ExJsonValue(Value);

#[verifier::external_type_specification]
#[verifier::external_body]
#[verifier::reject_recursive_types(K)]
#[verifier::reject_recursive_types(V)]
pub struct ExJsonMap<K, V>(serde_json::Map<K, V>);

/// The member that the JSON object `value` has under `key`. A value that is
/// no object has no members.
pub uninterp spec fn json_member(value: Value, key: Seq<char>) -> Option<Value>;

/// The members of the JSON value `value`, where it is an object.
pub uninterp spec fn json_object(value: Value) -> Option<serde_json::Map<String, Value>>;

/// The member that the members `members` of a JSON object hold under `key`.
pub uninterp spec fn json_object_member(
    members: serde_json::Map<String, Value>,
    key: Seq<char>,
) -> Option<Value>;

/// The characters of the JSON value `value`, where it is a string.
pub uninterp spec fn json_string(value: Value) -> Option<Seq<char>>;

/// `Value::get` with a string for the index: the member under `key`.
#[verifier::external_body]
fn json_get<'a>(value: &'a Value, key: &str) -> (member: Option<&'a Value>)
    ensures
        match member {
            Some(found) => json_member(*value, key@) == Some(*found),
            None => json_member(*value, key@) is None,
        },
{
    value.get(key)
}

/// `Value::as_object`: the members, where the value is an object.
#[verifier::external_body]
fn json_as_object<'a>(value: &'a Value) -> (object: Option<&'a serde_json::Map<String, Value>>)
    ensures
        match object {
            Some(members) => json_object(*value) == Some(*members),
            None => json_object(*value) is None,
        },
{
    value.as_object()
}

/// `Map::get` with a string for the key: the member under `key`.
#[verifier::external_body]
fn json_object_get<'a>(members: &'a serde_json::Map<String, Value>, key: &str) -> (member: Option<
    &'a Value,
>)
    ensures
        match member {
            Some(found) => json_object_member(*members, key@) == Some(*found),
            None => json_object_member(*members, key@) is None,
        },
{
    members.get(key)
}

/// `Value::as_str`: the characters, where the value is a string.
#[verifier::external_body]
fn json_as_str<'a>(value: &'a Value) -> (string: Option<&'a str>)
    ensures
        match string {
            Some(characters) => json_string(*value) == Some(characters@),
            None => json_string(*value) is None,
        },
{
    value.as_str()
}

/// The binary that a manifest in the `cmx` format names: the member `binary`
/// of the object `program`, where it is a string.
pub open spec fn spec_cmx_program_binary(body: Value) -> Option<Seq<char>> {
    match json_member(body, "program"@) {
        Some(program) => match json_object(program) {
            Some(members) => match json_object_member(members, "binary"@) {
                Some(binary) => json_string(binary),
                None => None,
            },
            None => None,
        },
        None => None,
    }
}

/// The runner that a manifest in the `cmx` format names: the member `runner`,
/// where it is a string.
pub open spec fn spec_cmx_runner(payload: Value) -> Option<Seq<char>> {
    match json_member(payload, "runner"@) {
        Some(runner) => json_string(runner),
        None => None,
    }
}

/// The binary that a manifest in the `cmx` format names.
pub fn get_program_binary(body: &Value) -> (binary: Option<String>)
    ensures
        spec_name(binary) == spec_cmx_program_binary(*body),
{
    let program = match json_get(body, "program") {
        Some(program) => match json_as_object(program) {
            Some(program) => program,
            None => {
                return None;
            },
        },
        None => {
            return None;
        },
    };
    match json_object_get(program, "binary") {
        Some(binary) => match json_as_str(binary) {
            Some(value) => Some(String::from_str(value)),
            None => None,
        },
        None => None,
    }
}

/// The runner that a manifest in the `cmx` format names.
pub fn get_component_runner(payload: &Value) -> (runner: Option<String>)
    ensures
        spec_name(runner) == spec_cmx_runner(*payload),
{
    match json_get(payload, "runner") {
        Some(runner) => match json_as_str(runner) {
            Some(value) => Some(String::from_str(value)),
            None => None,
        },
        None => None,
    }
}

impl ComponentManifest {
    /// What the validation reads of a manifest in the `cmx` format.
    pub fn from_cmx(body: &Value) -> (component: ComponentManifest)
        ensures
            spec_name(component.runner) == spec_cmx_runner(*body),
            spec_name(component.program_binary) == spec_cmx_program_binary(*body),
    {
        ComponentManifest {
            runner: get_component_runner(body),
            program_binary: get_program_binary(body),
        }
    }
}

/// The kinds of component manifest.
#[derive(Debug, Clone, Copy, PartialEq, Eq, Structural)]
pub enum ManifestKind {
    /// A manifest in the `cml` format.
    Cml,
    /// A manifest in the `cmx` format.
    Cmx,
}

/// Whether a component with this runner is left unchecked: these runners do
/// not respect the binary that the manifest names.
pub open spec fn spec_is_ignored_runner(runner: Seq<char>) -> bool {
    ||| runner == "fuchsia-pkg://fuchsia.com/guest-runner#meta/guest_runner.cmx"@
    ||| runner == "fuchsia-pkg://fuchsia.com/appmgr_mock_runner#meta/appmgr_mock_runner.cmx"@
    ||| runner == "fuchsia-pkg://fuchsia.com/netemul-runner#meta/netemul-runner.cmx"@
    ||| runner == "fuchsia-pkg://fuchsia.com/dart_jit_runner#meta/dart_jit_runner.cmx"@
}

/// Whether a component with this runner is left unchecked.
pub fn is_ignored_runner(runner: &str) -> (ignored: bool)
    ensures
        ignored == spec_is_ignored_runner(runner@),
{
    str_eq(runner, "fuchsia-pkg://fuchsia.com/guest-runner#meta/guest_runner.cmx") || str_eq(
        runner,
        "fuchsia-pkg://fuchsia.com/appmgr_mock_runner#meta/appmgr_mock_runner.cmx",
    ) || str_eq(runner, "fuchsia-pkg://fuchsia.com/netemul-runner#meta/netemul-runner.cmx")
        || str_eq(runner, "fuchsia-pkg://fuchsia.com/dart_jit_runner#meta/dart_jit_runner.cmx")
}

/// Whether two strings hold the same characters.
fn str_eq(a: &str, b: &str) -> (equal: bool)
    ensures
        equal == (a@ == b@),
{
    let left = chars_of(a);
    let right = chars_of(b);
    if left.len() != right.len() {
        return false;
    }
    let mut i: usize = 0;
    while i < left.len()
        invariant
            left@ == a@,
            right@ == b@,
            left@.len() == right@.len(),
            i <= left@.len(),
            forall|j: int| 0 <= j < i ==> left@[j] == right@[j],
        decreases left.len() - i,
    {
        if left[i] != right[i] {
            return false;
        }
        i += 1;
    }
    assert(left@ =~= right@);
    true
}

/// Whether `targets` holds `target`.
fn contains(targets: &Vec<String>, target: &str) -> (found: bool)
    ensures
        found == targets.deep_view().contains(target@),
{
    let mut i: usize = 0;
    while i < targets.len()
        invariant
            i <= targets@.len(),
            forall|j: int| 0 <= j < i ==> targets.deep_view()[j] != target@,
        decreases targets.len() - i,
    {
        assert(targets.deep_view()[i as int] == targets@[i as int]@);
        if str_eq(targets[i].as_str(), target) {
            return true;
        }
        i += 1;
    }
    false
}

/// The kind of manifest that a file with the extension `extension` holds.
pub fn manifest_kind(extension: Option<&str>) -> (kind: Result<ManifestKind, Error>)
    ensures
        match kind {
            Ok(ManifestKind::Cmx) => extension matches Some(ext) && ext@ == "cmx"@,
            Ok(ManifestKind::Cml) => extension matches Some(ext) && ext@ == "cml"@,
            Err(e) => {
                &&& !(extension matches Some(ext) && (ext@ == "cmx"@ || ext@ == "cml"@))
                &&& e matches Error::InvalidArgs(message)
                &&& message@
                    == "Input file does not have a component manifest extension (.cml or .cmx)"@
            },
        },
{
    proof {
        reveal_strlit("cmx");
        reveal_strlit("cml");
    }
    match extension {
        Some(ext) => {
            if str_eq(ext, "cmx") {
                return Ok(ManifestKind::Cmx);
            }
            if str_eq(ext, "cml") {
                return Ok(ManifestKind::Cml);
            }
        },
        None => {},
    }
    Err(
        Error::InvalidArgs(
            String::from_str(
                "Input file does not have a component manifest extension (.cml or .cmx)",
            ),
        ),
    )
}

/// Whether the package provides the binary `binary`: it is among the targets,
/// or it is a test binary that is among them as a disabled test.
pub open spec fn spec_provides(targets: Seq<Seq<char>>, binary: Seq<char>) -> bool {
    ||| targets.contains(binary)
    ||| {
        &&& binary.len() >= 5
        &&& binary.subrange(0, 5) == "test/"@
        &&& targets.contains("test/disabled/"@ + binary.subrange(5, binary.len() as int))
    }
}

/// Whether the package provides the binary `binary`.
pub fn provides(targets: &Vec<String>, binary: &str) -> (provided: bool)
    ensures
        provided == spec_provides(targets.deep_view(), binary@),
{
    if contains(targets, binary) {
        return true;
    }
    // Legacy packages support the "disabled test" feature that intentionally
    // breaks component manifests.
    let n = binary.unicode_len();
    if n >= 5 && str_eq(binary.substring_char(0, 5), "test/") {
        let disabled = String::from_str("test/disabled/").concat(binary.substring_char(5, n));
        contains(targets, disabled.as_str())
    } else {
        false
    }
}

/// Whether the component manifest is consistent with the package manifest:
/// the runner is one that is left unchecked, or the manifest names no binary,
/// or the package provides the binary.
pub open spec fn spec_is_consistent(
    runner: Option<Seq<char>>,
    binary: Option<Seq<char>>,
    package_manifest: Seq<char>,
) -> bool {
    ||| runner matches Some(r) && spec_is_ignored_runner(r)
    ||| binary is None
    ||| binary matches Some(b) && spec_provides(spec_package_targets(package_manifest), b)
}

/// The head of every message about a manifest: the manifest, and before it
/// the label of the build target that it belongs to, where that is known.
pub open spec fn spec_header(component_manifest: Seq<char>, gn_label: Option<Seq<char>>) -> Seq<
    char,
> {
    match gn_label {
        Some(label) => "Error found in: "@ + label + "\n\tFailed to validate manifest: "@
            + component_manifest,
        None => "Failed to validate manifest: "@ + component_manifest,
    }
}

/// The head of every message about the manifest `component_manifest`, which
/// is the path of the manifest as it is to be shown.
pub fn gen_header(component_manifest: &str, gn_label: Option<&String>) -> (header: String)
    ensures
        header@ == spec_header(component_manifest@, spec_label(gn_label)),
{
    match gn_label {
        Some(label) => String::from_str("Error found in: ").concat(label.as_str()).concat(
            "\n\tFailed to validate manifest: ",
        ).concat(component_manifest),
        None => String::from_str("Failed to validate manifest: ").concat(component_manifest),
    }
}

/// The message about a binary that the package does not provide: the head,
/// then the binary, the target that is nearest to it, and all the targets; or
/// the head and the word that there are no targets.
pub open spec fn spec_missing_binary(
    header: Seq<char>,
    binary: Seq<char>,
    targets: Seq<Seq<char>>,
    nearest: Seq<char>,
) -> Seq<char> {
    if targets.len() == 0 {
        header + "\n\tPackage deps is empty!"@
    } else {
        header + "\n    program.binary="@ + binary + " but '"@ + binary
            + "' is not provided by deps!\n\n    Did you mean "@ + spec_debug_str(nearest)
            + "?\n\n    Try any of the following:\n    "@ + spec_debug_list(targets)
    }
}

/// The label of a build target as contracts speak of it.
pub open spec fn spec_label(gn_label: Option<&String>) -> Option<Seq<char>> {
    match gn_label {
        Some(label) => Some(label@),
        None => None,
    }
}

/// Whether `error` is the error about the binary `binary`, which the targets
/// `targets` do not provide: it carries the message about it, in which the
/// target shown as the nearest is the first of those at the least distance
/// from the binary.
pub open spec fn spec_is_missing_binary_error(
    error: Error,
    component_manifest: Seq<char>,
    gn_label: Option<Seq<char>>,
    binary: Seq<char>,
    targets: Seq<Seq<char>>,
) -> bool {
    error matches Error::Validate(message) && exists|index: int|
        {
            &&& targets.len() > 0 ==> spec_is_nearest(spec_distances(binary, targets), index)
            &&& message@ == spec_missing_binary(
                spec_header(component_manifest, gn_label),
                binary,
                targets,
                #[trigger] targets[index],
            )
        }
}

/// The error about a binary that the package does not provide.
pub fn missing_binary_error(
    component_manifest: &str,
    program_binary: &str,
    package_targets: &Vec<String>,
    gn_label: Option<&String>,
) -> (error: Error)
    ensures
        spec_is_missing_binary_error(
            error,
            component_manifest@,
            spec_label(gn_label),
            program_binary@,
            package_targets.deep_view(),
        ),
{
    let header = gen_header(component_manifest, gn_label);
    let ghost targets = package_targets.deep_view();
    if package_targets.len() == 0 {
        let message = header.concat("\n\tPackage deps is empty!");
        assert(message@ == spec_missing_binary(
            spec_header(component_manifest@, spec_label(gn_label)),
            program_binary@,
            targets,
            targets[0],
        ));
        return Error::Validate(message);
    }
    // We couldn't find the binary, let's get the nearest match.

    let nearest_match = get_nearest_match(program_binary, package_targets);
    let shown_match = debug_str(nearest_match);
    let shown_targets = debug_list(package_targets);
    let message = header.concat("\n    program.binary=").concat(program_binary).concat(
        " but '",
    ).concat(program_binary).concat("' is not provided by deps!\n\n    Did you mean ").concat(
        shown_match.as_str(),
    ).concat("?\n\n    Try any of the following:\n    ").concat(shown_targets.as_str());
    proof {
        let index = choose|index: int|
            spec_is_nearest(spec_distances(program_binary@, targets), index) && nearest_match@
                == #[trigger] targets[index];
        assert(message@ == spec_missing_binary(
            spec_header(component_manifest@, spec_label(gn_label)),
            program_binary@,
            targets,
            targets[index],
        ));
    }
    Error::Validate(message)
}

/// What the component manifest names, as contracts speak of it.
pub open spec fn spec_name(name: Option<String>) -> Option<Seq<char>> {
    match name {
        Some(name) => Some(name@),
        None => None,
    }
}

/// Validates that a component manifest is consistent with the content of its
/// package: the binary that the manifest names must be provided by the
/// package. A component whose runner is left unchecked passes, and so does
/// one whose manifest names no binary.
///
/// `component_manifest` is the path of the component manifest as it is to be
/// shown, `component` what the manifest holds, and `package_manifest` the text
/// of the package manifest.
pub fn validate(
    component_manifest: &str,
    component: &ComponentManifest,
    package_manifest: &str,
    gn_label: Option<&String>,
) -> (result: Result<(), Error>)
    ensures
        result is Ok <==> spec_is_consistent(
            spec_name(component.runner),
            spec_name(component.program_binary),
            package_manifest@,
        ),
        result matches Err(e) ==> spec_is_missing_binary_error(
            e,
            component_manifest@,
            spec_label(gn_label),
            component.program_binary->Some_0@,
            spec_package_targets(package_manifest@),
        ),
{
    match &component.runner {
        Some(component_runner) => {
            if is_ignored_runner(component_runner.as_str()) {
                return Ok(());
            }
        },
        None => {},
    }
    let package_targets = get_package_targets(package_manifest);
    match &component.program_binary {
        None => Ok(()),
        Some(program_binary) => {
            if provides(&package_targets, program_binary.as_str()) {
                Ok(())
            } else {
                Err(
                    missing_binary_error(
                        component_manifest,
                        program_binary.as_str(),
                        &package_targets,
                        gn_label,
                    ),
                )
            }
        },
    }
}

} // verus!
