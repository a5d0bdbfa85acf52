//! Names and paths of the objects of a sandbox.
//!
//! Paths are kept as text. A child is placed below its parent by writing the
//! parent, one `/` and the child's name. The root directory of a sandbox
//! carries, behind its configured name, an underscore and a number in decimal
//! digits; every other directory carries its configured name as it is.

use vstd::prelude::*;

verus! {

/// The character that separates the components of a path.
pub open spec fn separator() -> char {
    '/'
}

/// The character that stands between the configured name of the root
/// directory and its number.
pub open spec fn suffix_mark() -> char {
    '_'
}

/// The decimal digit for a value below ten.
pub open spec fn digit_char(d: nat) -> char {
    if d == 0 {
        '0'
    } else if d == 1 {
        '1'
    } else if d == 2 {
        '2'
    } else if d == 3 {
        '3'
    } else if d == 4 {
        '4'
    } else if d == 5 {
        '5'
    } else if d == 6 {
        '6'
    } else if d == 7 {
        '7'
    } else if d == 8 {
        '8'
    } else {
        '9'
    }
}

/// A number written in decimal digits, without sign and without leading
/// zeros; zero is written `0`.
pub open spec fn decimal(n: nat) -> Seq<char>
    decreases n,
{
    if n < 10 {
        seq![digit_char(n)]
    } else {
        decimal(n / 10).push(digit_char(n % 10))
    }
}

/// The path of `name` placed inside `parent`.
///
/// An empty parent stands for no directory at all and gives the name alone.
/// A parent that already ends with the separator gets no second one.
pub open spec fn join(parent: Seq<char>, name: Seq<char>) -> Seq<char> {
    if parent.len() == 0 {
        name
    } else if parent.last() == separator() {
        parent + name
    } else {
        parent.push(separator()) + name
    }
}

/// The name that the root directory of a sandbox gets on disk: the configured
/// name, the suffix mark and the number in decimal digits.
pub open spec fn root_name(name: Seq<char>, code: u64) -> Seq<char> {
    name.push(suffix_mark()) + decimal(code as nat)
}

/// The on-disk path of a directory configured as `name` below `parent`.
/// At level 0 the directory is the sandbox root and carries the suffix made
/// from `code`; at every other level the name stands verbatim.
pub open spec fn dir_path(
    parent: Seq<char>,
    name: Seq<char>,
    level: u32,
    code: u64,
) -> Seq<char> {
    if level == 0 {
        join(parent, root_name(name, code))
    } else {
        join(parent, name)
    }
}

/// `String::push` of the standard library: the character is appended to the
/// end of the string and nothing else changes.
#[verifier::external_body]
pub(crate) fn push_char(text: &mut String, c: char)
    ensures
        final(text)@ == old(text)@.push(c),
{
    text.push(c);
}

/// The digit character of a value below ten.
fn digit(d: u8) -> (c: char)
    requires
        d < 10,
    ensures
        c == digit_char(d as nat),
{
    if d == 0 {
        '0'
    } else if d == 1 {
        '1'
    } else if d == 2 {
        '2'
    } else if d == 3 {
        '3'
    } else if d == 4 {
        '4'
    } else if d == 5 {
        '5'
    } else if d == 6 {
        '6'
    } else if d == 7 {
        '7'
    } else if d == 8 {
        '8'
    } else {
        '9'
    }
}

/// Appends the decimal digits of `n` to `text`.
pub fn append_decimal(text: &mut String, n: u64)
    ensures
        final(text)@ == old(text)@ + decimal(n as nat),
    decreases n,
{
    if n >= 10 {
        append_decimal(text, n / 10);
    }
    let d: u8 = (n % 10) as u8;
    push_char(text, digit(d));
    assert(final(text)@ =~= old(text)@ + decimal(n as nat));
}

/// The decimal digits of `n` as a string.
pub fn decimal_string(n: u64) -> (text: String)
    ensures
        text@ == decimal(n as nat),
{
    let mut text = String::new();
    append_decimal(&mut text, n);
    assert(Seq::<char>::empty() + decimal(n as nat) =~= decimal(n as nat));
    text
}

/// The path of `name` placed inside `parent`.
pub fn join_path(parent: &str, name: &str) -> (path: String)
    ensures
        path@ == join(parent@, name@),
{
    let len = parent.unicode_len();
    if len == 0 {
        return String::from_str(name);
    }
    let mut path = String::from_str(parent);
    if parent.get_char(len - 1) != '/' {
        push_char(&mut path, '/');
    }
    path.append(name);
    path
}

/// The on-disk name of the sandbox root configured as `name`, numbered `code`.
pub fn root_dir_name(name: &str, code: u64) -> (text: String)
    ensures
        text@ == root_name(name@, code),
{
    let mut text = String::from_str(name);
    push_char(&mut text, '_');
    append_decimal(&mut text, code);
    text
}

/// The on-disk path of a directory configured as `name` below `parent`, for
/// a given number of the sandbox root.
pub fn dir_path_with_code(parent: &str, name: &str, level: u32, code: u64) -> (path: String)
    ensures
        path@ == dir_path(parent@, name@, level, code),
{
    if level == 0 {
        let root = root_dir_name(name, code);
        join_path(parent, root.as_str())
    } else {
        join_path(parent, name)
    }
}

/// What stands in front of a name that is placed inside `parent`: nothing
/// for an empty parent, the parent for one that ends with the separator,
/// the parent and a separator otherwise.
pub open spec fn join_prefix(parent: Seq<char>) -> Seq<char> {
    if parent.len() == 0 {
        parent
    } else if parent.last() == separator() {
        parent
    } else {
        parent.push(separator())
    }
}

/// A joined path is the prefix that the parent gives, then the name.
pub proof fn lemma_join_is_prefix_then_name(parent: Seq<char>, name: Seq<char>)
    ensures
        join(parent, name) == join_prefix(parent) + name,
{
    assert(join(parent, name) =~= join_prefix(parent) + name);
}

/// A number in decimal digits has at least one digit, and at least two when
/// the number is ten or more.
pub proof fn lemma_decimal_len(n: nat)
    ensures
        decimal(n).len() >= 1,
        n >= 10 ==> decimal(n).len() >= 2,
    decreases n,
{
    if n >= 10 {
        lemma_decimal_len(n / 10);
    }
}

/// Two numbers that are written with the same decimal digits are the same
/// number.
pub proof fn lemma_decimal_injective(a: nat, b: nat)
    requires
        decimal(a) == decimal(b),
    ensures
        a == b,
    decreases a,
{
    lemma_decimal_len(a);
    lemma_decimal_len(b);
    if a < 10 && b < 10 {
        assert(decimal(a)[0] == digit_char(a));
        assert(decimal(b)[0] == digit_char(b));
    } else if a >= 10 && b >= 10 {
        assert(decimal(a).drop_last() =~= decimal(a / 10));
        assert(decimal(b).drop_last() =~= decimal(b / 10));
        assert(decimal(a).last() == digit_char(a % 10));
        assert(decimal(b).last() == digit_char(b % 10));
        lemma_decimal_injective(a / 10, b / 10);
        assert(a % 10 == b % 10);
    } else if a < 10 {
        assert(decimal(a).len() == 1);
    } else {
        assert(decimal(b).len() == 1);
    }
}

/// Two sandbox roots that are built from the same configured name in the
/// same place, with different numbers, lie at different paths.
pub proof fn lemma_distinct_codes_give_distinct_roots(
    parent: Seq<char>,
    name: Seq<char>,
    first: u64,
    second: u64,
)
    requires
        first != second,
    ensures
        dir_path(parent, name, 0, first) != dir_path(parent, name, 0, second),
{
    let front = join_prefix(parent) + name.push(suffix_mark());
    lemma_join_is_prefix_then_name(parent, root_name(name, first));
    lemma_join_is_prefix_then_name(parent, root_name(name, second));
    assert(dir_path(parent, name, 0, first) =~= front + decimal(first as nat));
    assert(dir_path(parent, name, 0, second) =~= front + decimal(second as nat));
    if dir_path(parent, name, 0, first) == dir_path(parent, name, 0, second) {
        assert((front + decimal(first as nat)).skip(front.len() as int) =~= decimal(first as nat));
        assert((front + decimal(second as nat)).skip(front.len() as int) =~= decimal(
            second as nat,
        ));
        lemma_decimal_injective(first as nat, second as nat);
    }
}

/// The on-disk name of a sandbox root is never the configured name alone:
/// it is longer by the suffix mark and at least one digit, and the root
/// therefore never lies where a directory with the plain name would lie.
pub proof fn lemma_root_name_is_never_the_plain_name(parent: Seq<char>, name: Seq<char>, code: u64)
    ensures
        root_name(name, code).len() >= name.len() + 2,
        root_name(name, code) != name,
        dir_path(parent, name, 0, code) != join(parent, name),
{
    lemma_decimal_len(code as nat);
    lemma_join_is_prefix_then_name(parent, root_name(name, code));
    lemma_join_is_prefix_then_name(parent, name);
    assert(dir_path(parent, name, 0, code).len() == join_prefix(parent).len() + root_name(
        name,
        code,
    ).len());
    assert(join(parent, name).len() == join_prefix(parent).len() + name.len());
}

/// Below the sandbox root every directory lies at the path of its parent,
/// a separator and its configured name: the number of the root is part of
/// the root's own name alone.
pub proof fn lemma_nested_path_keeps_name(parent: Seq<char>, name: Seq<char>, level: u32, code: u64)
    requires
        level > 0,
    ensures
        dir_path(parent, name, level, code) == join(parent, name),
        dir_path(parent, name, level, code) == join_prefix(parent) + name,
{
    lemma_join_is_prefix_then_name(parent, name);
}

/// Whether a path begins with the text of a directory's path.
pub open spec fn begins_with(path: Seq<char>, dir: Seq<char>) -> bool {
    dir.len() <= path.len() && path.subrange(0, dir.len() as int) == dir
}

/// What is placed inside a directory has a path that begins with the path
/// of that directory.
pub proof fn lemma_join_begins_with_parent(parent: Seq<char>, name: Seq<char>)
    ensures
        begins_with(join(parent, name), parent),
{
    assert(join(parent, name).subrange(0, parent.len() as int) =~= parent);
}

/// A path that begins with a directory's path begins with the path of
/// whatever that directory's path begins with.
pub proof fn lemma_begins_with_is_transitive(path: Seq<char>, inner: Seq<char>, outer: Seq<char>)
    requires
        begins_with(path, inner),
        begins_with(inner, outer),
    ensures
        begins_with(path, outer),
{
    assert(path.subrange(0, outer.len() as int) =~= path.subrange(0, inner.len() as int).subrange(
        0,
        outer.len() as int,
    ));
}

} // verus!
