//! Translation of key expressions into InfluxDB regular expressions.

use crate::text::chars_of;
use vstd::prelude::*;

verus! {

/// The regular expression for one key expression: `**` stands for any characters, a single `*` for
/// any characters but `/`, and a literal `/` is escaped.
pub open spec fn translated(key: Seq<char>) -> Seq<char>
    decreases key.len(),
{
    if key.len() == 0 {
        Seq::empty()
    } else if key[0] == '*' && key.len() > 1 && key[1] == '*' {
        ".*"@ + translated(key.skip(2))
    } else if key[0] == '*' {
        r"[^\/]*"@ + translated(key.skip(1))
    } else if key[0] == '/' {
        r"\/"@ + translated(key.skip(1))
    } else {
        seq![key[0]] + translated(key.skip(1))
    }
}

/// The translations of `keys`, separated by `|`.
pub open spec fn alternatives(keys: Seq<Seq<char>>) -> Seq<char>
    decreases keys.len(),
{
    if keys.len() == 0 {
        Seq::empty()
    } else if keys.len() == 1 {
        translated(keys[0])
    } else {
        alternatives(keys.drop_last()) + seq!['|'] + translated(keys.last())
    }
}

/// The InfluxDB regular expression for the key expressions in `keys`.
pub open spec fn influx_regex(keys: Seq<Seq<char>>) -> Seq<char> {
    "/^"@ + alternatives(keys) + "$/"@
}

/// The views of a list of string slices.
pub open spec fn views(texts: Seq<&str>) -> Seq<Seq<char>> {
    texts.map_values(|text: &str| text@)
}

/// Appends the translation of one key expression to `result`.
fn push_translated(result: &mut String, key: &str)
    ensures
        final(result)@ == old(result)@ + translated(key@),
{
    let chars = chars_of(key);
    let mut i: usize = 0;
    assert(chars@.skip(0) == chars@);
    while i < chars.len()
        invariant
            i <= chars@.len(),
            result@ + translated(chars@.skip(i as int)) == old(result)@ + translated(chars@),
        decreases chars@.len() - i,
    {
        let ghost rest = chars@.skip(i as int);
        let ghost before = result@;
        let c = chars[i];
        if c == '*' && i + 1 < chars.len() && chars[i + 1] == '*' {
            assert(rest.skip(2) == chars@.skip(i + 2));
            result.push_str(".*");
            assert(result@ + translated(chars@.skip(i + 2)) == before + translated(rest));
            i += 2;
        } else {
            assert(rest.skip(1) == chars@.skip(i + 1));
            if c == '*' {
                result.push_str(r"[^\/]*");
            } else if c == '/' {
                result.push_str(r"\/");
            } else {
                result.push(c);
            }
            assert(result@ + translated(chars@.skip(i + 1)) == before + translated(rest));
            i += 1;
        }
    }
    assert(chars@.skip(chars@.len() as int) == Seq::<char>::empty());
}

/// Returns the InfluxDB regular expression for a list of key expressions.
///
/// `**` becomes `.*`, `*` becomes `[^\/]*` and `/` becomes `\/`; the translations are joined by `|`
/// and surrounded by `/^` and `$/`.
pub fn key_exprs_to_influx_regex(path_exprs: &[&str]) -> (res: String)
    requires
        path_exprs@.len() > 0,
    ensures
        res@ == influx_regex(views(path_exprs@)),
{
    let ghost keys = views(path_exprs@);
    let mut result = String::new();
    result.push_str("/^");
    let mut i: usize = 0;
    while i < path_exprs.len()
        invariant
            i <= path_exprs@.len(),
            keys == views(path_exprs@),
            result@ == "/^"@ + alternatives(keys.take(i as int)),
        decreases path_exprs@.len() - i,
    {
        let ghost done = keys.take(i as int);
        let ghost next = keys.take(i + 1);
        assert(next.drop_last() == done);
        assert(next.last() == path_exprs@[i as int]@);
        if i != 0 {
            result.push('|');
        }
        push_translated(&mut result, path_exprs[i]);
        assert(result@ == "/^"@ + alternatives(next));
        i += 1;
    }
    assert(keys.take(keys.len() as int) == keys);
    result.push_str("$/");
    result
}

/// The regular expression that covers every key.
pub fn influx_regex_all() -> (res: String)
    ensures
        res@ == influx_regex(seq!["**"@]),
        res@ == "/^.*$/"@,
{
    let all = ["**"];
    let res = key_exprs_to_influx_regex(&all);
    proof {
        reveal_strlit("**");
        reveal_strlit(".*");
        reveal_strlit("/^");
        reveal_strlit("$/");
        reveal_strlit("/^.*$/");
        assert(views(all@) == seq!["**"@]);
        assert("**"@.skip(2) == Seq::<char>::empty());
        assert(translated("**"@.skip(2)) == Seq::<char>::empty());
        assert(translated("**"@) == ".*"@);
    }
    res
}

/// A `/` splits a key expression: what stands before it and what stands after it are translated
/// apart, whatever wildcards they hold.
pub proof fn law_slash_splits_translation(left: Seq<char>, right: Seq<char>)
    ensures
        translated(left + seq!['/'] + right) == translated(left) + r"\/"@ + translated(right),
    decreases left.len(),
{
    let whole = left + seq!['/'] + right;
    if left.len() == 0 {
        assert(whole.skip(1) == right);
    } else if left[0] == '*' && left.len() > 1 && left[1] == '*' {
        law_slash_splits_translation(left.skip(2), right);
        assert(whole.skip(2) == left.skip(2) + seq!['/'] + right);
    } else {
        law_slash_splits_translation(left.skip(1), right);
        assert(whole.skip(1) == left.skip(1) + seq!['/'] + right);
    }
}

/// A key expression without wildcards and separators is its own translation.
pub proof fn law_plain_chunk_is_literal(chunk: Seq<char>)
    requires
        forall|i: int| 0 <= i < chunk.len() ==> chunk[i] != '*' && chunk[i] != '/',
    ensures
        translated(chunk) == chunk,
    decreases chunk.len(),
{
    if chunk.len() > 0 {
        law_plain_chunk_is_literal(chunk.skip(1));
        assert(seq![chunk[0]] + chunk.skip(1) == chunk);
    }
}

/// A list of key expressions followed by another is covered by the alternatives of both, in order.
pub proof fn law_lists_join_by_alternation(first: Seq<Seq<char>>, second: Seq<Seq<char>>)
    requires
        first.len() > 0,
        second.len() > 0,
    ensures
        alternatives(first + second) == alternatives(first) + seq!['|'] + alternatives(second),
    decreases second.len(),
{
    let whole = first + second;
    assert(whole.drop_last() == first + second.drop_last());
    assert(whole.last() == second.last());
    if second.len() == 1 {
        assert(second.drop_last() == Seq::<Seq<char>>::empty());
        assert(first + second.drop_last() == first);
    } else {
        law_lists_join_by_alternation(first, second.drop_last());
    }
}

/// What a key expression begins with is translated first, whatever follows: `**` to any characters, a
/// `*` on its own to any characters but `/`, `/` to an escaped one, and any other character to
/// itself.
pub proof fn law_beginnings_are_translated_first(c: char, rest: Seq<char>)
    ensures
        translated(seq!['*', '*'] + rest) == ".*"@ + translated(rest),
        rest.len() == 0 || rest[0] != '*' ==> translated(seq!['*'] + rest) == r"[^\/]*"@ + translated(
            rest,
        ),
        translated(seq!['/'] + rest) == r"\/"@ + translated(rest),
        c != '*' && c != '/' ==> translated(seq![c] + rest) == seq![c] + translated(rest),
        translated(Seq::empty()) == Seq::<char>::empty(),
{
    assert((seq!['*', '*'] + rest).skip(2) == rest);
    assert((seq!['*'] + rest).skip(1) == rest);
    assert((seq!['/'] + rest).skip(1) == rest);
    assert((seq![c] + rest).skip(1) == rest);
}

/// The regular expression for a list is anchored at both ends, and each key expression of the list
/// has its place in it.
pub proof fn law_regexes_are_anchored(key: Seq<char>, keys: Seq<Seq<char>>)
    ensures
        influx_regex(seq![key]) == "/^"@ + translated(key) + "$/"@,
        keys.len() > 0 ==> influx_regex(keys.push(key)) == "/^"@ + alternatives(keys) + "|"@
            + translated(key) + "$/"@,
{
    reveal_strlit("|");
    assert(seq!['|'] == "|"@);
    assert(keys.push(key).drop_last() == keys);
}

/// No key expression is lost: the list is viewed in its length and order.
pub proof fn law_lists_are_viewed_whole(texts: Seq<&str>)
    ensures
        views(texts).len() == texts.len(),
        forall|i: int| 0 <= i < texts.len() ==> #[trigger] views(texts)[i] == texts[i]@,
{
}

}
