//! Character-level text handling: whitespace trimming and removal of the
//! code-fence markers that a generative backend may put around a payload.

use vstd::prelude::*;

verus! {

/// Whether `c` carries the Unicode `White_Space` property.
pub open spec fn is_white_space(c: char) -> bool {
    let n = c as u32;
    ||| 0x09 <= n <= 0x0D
    ||| n == 0x20
    ||| n == 0x85
    ||| n == 0xA0
    ||| n == 0x1680
    ||| 0x2000 <= n <= 0x200A
    ||| n == 0x2028
    ||| n == 0x2029
    ||| n == 0x202F
    ||| n == 0x205F
    ||| n == 0x3000
}

/// `s` without its leading white space.
pub open spec fn trim_start_spec(s: Seq<char>) -> Seq<char>
    decreases s.len(),
{
    if s.len() > 0 && is_white_space(s.first()) {
        trim_start_spec(s.drop_first())
    } else {
        s
    }
}

/// `s` without its trailing white space.
pub open spec fn trim_end_spec(s: Seq<char>) -> Seq<char>
    decreases s.len(),
{
    if s.len() > 0 && is_white_space(s.last()) {
        trim_end_spec(s.drop_last())
    } else {
        s
    }
}

/// `s` without leading and trailing white space.
pub open spec fn trim_spec(s: Seq<char>) -> Seq<char> {
    trim_end_spec(trim_start_spec(s))
}

/// `s` after `pat` has been removed from its front as often as it stands there.
/// An empty `pat` removes nothing.
pub open spec fn strip_leading(s: Seq<char>, pat: Seq<char>) -> Seq<char>
    decreases s.len(),
{
    if pat.len() > 0 && pat.is_prefix_of(s) {
        strip_leading(s.skip(pat.len() as int), pat)
    } else {
        s
    }
}

/// `s` after `pat` has been removed from its end as often as it stands there.
/// An empty `pat` removes nothing.
pub open spec fn strip_trailing(s: Seq<char>, pat: Seq<char>) -> Seq<char>
    decreases s.len(),
{
    if pat.len() > 0 && pat.is_suffix_of(s) {
        strip_trailing(s.take(s.len() - pat.len()), pat)
    } else {
        s
    }
}

/// The marker that opens or closes a fenced block.
pub open spec fn fence() -> Seq<char> {
    seq!['`', '`', '`']
}

/// The marker that opens a fenced block tagged as JSON.
pub open spec fn json_fence() -> Seq<char> {
    seq!['`', '`', '`', 'j', 's', 'o', 'n']
}

/// What is left of a backend reply once the decoration around its payload is
/// gone: outer white space first, then every leading JSON fence, every
/// leading plain fence, and every trailing plain fence.
pub open spec fn without_fences(s: Seq<char>) -> Seq<char> {
    strip_trailing(strip_leading(strip_leading(trim_spec(s), json_fence()), fence()), fence())
}

/// Whether every character of `s` is white space.
pub open spec fn all_white_space(s: Seq<char>) -> bool {
    forall|i: int| 0 <= i < s.len() ==> is_white_space(#[trigger] s[i])
}

/// Whether `s` is non-empty and neither starts nor ends with white space or
/// with a backtick.
pub open spec fn is_bare_payload(s: Seq<char>) -> bool {
    &&& s.len() > 0
    &&& !is_white_space(s.first())
    &&& !is_white_space(s.last())
    &&& s.first() != '`'
    &&& s.last() != '`'
}

/// Leading white space does not change what trimming at the front leaves.
pub proof fn lemma_trim_start_skips(space: Seq<char>, rest: Seq<char>)
    requires
        all_white_space(space),
    ensures
        trim_start_spec(space + rest) == trim_start_spec(rest),
    decreases space.len(),
{
    if space.len() == 0 {
        assert(space + rest == rest);
    } else {
        assert(is_white_space(space[0]));
        assert((space + rest).drop_first() == space.drop_first() + rest);
        lemma_trim_start_skips(space.drop_first(), rest);
    }
}

/// Trailing white space does not change what trimming at the end leaves.
pub proof fn lemma_trim_end_skips(rest: Seq<char>, space: Seq<char>)
    requires
        all_white_space(space),
    ensures
        trim_end_spec(rest + space) == trim_end_spec(rest),
    decreases space.len(),
{
    if space.len() == 0 {
        assert(rest + space == rest);
    } else {
        assert(is_white_space(space[space.len() - 1]));
        assert((rest + space).drop_last() == rest + space.drop_last());
        lemma_trim_end_skips(rest, space.drop_last());
    }
}

/// Trimming removes exactly the white space around a core that neither starts
/// nor ends with white space.
pub proof fn lemma_trim_exact(before: Seq<char>, core: Seq<char>, after: Seq<char>)
    requires
        all_white_space(before),
        all_white_space(after),
        core.len() > 0,
        !is_white_space(core.first()),
        !is_white_space(core.last()),
    ensures
        trim_spec(before + core + after) == core,
{
    assert(before + core + after == before + (core + after));
    lemma_trim_start_skips(before, core + after);
    assert((core + after).first() == core.first());
    lemma_trim_end_skips(core, after);
}

/// Text that carries no decoration passes through unchanged: no white space
/// at either end and no fence marker at either end.
pub proof fn lemma_undecorated_unchanged(s: Seq<char>)
    requires
        s.len() > 0 ==> !is_white_space(s.first()) && !is_white_space(s.last()),
        !fence().is_prefix_of(s),
        !fence().is_suffix_of(s),
    ensures
        without_fences(s) == s,
{
    assert(trim_spec(s) == s);
    if json_fence().is_prefix_of(s) {
        assert(fence() =~= s.subrange(0, 3)) by {
            assert(json_fence() == s.subrange(0, 7));
            assert forall|i: int| 0 <= i < 3 implies fence()[i] == s.subrange(0, 3)[i] by {
                assert(s.subrange(0, 7)[i] == json_fence()[i]);
            }
        }
        assert(false);
    }
}

/// A payload inside a fenced block comes out exactly, whether the opening
/// marker is tagged as JSON or plain, and whatever white space surrounds the
/// block. The payload is any text that is non-empty, does not start or end
/// with a backtick and, behind a plain marker, does not start with `j`.
pub proof fn lemma_fenced_payload_recovered(
    before: Seq<char>,
    tagged: bool,
    payload: Seq<char>,
    after: Seq<char>,
)
    requires
        all_white_space(before),
        all_white_space(after),
        payload.len() > 0,
        payload.first() != '`',
        payload.last() != '`',
        !tagged ==> payload.first() != 'j',
    ensures
        without_fences(
            before + (if tagged {
                json_fence()
            } else {
                fence()
            }) + payload + fence() + after,
        ) == payload,
{
    let open = if tagged {
        json_fence()
    } else {
        fence()
    };
    let core = open + payload + fence();
    assert(before + open + payload + fence() + after == before + core + after);
    assert(core.first() == '`');
    assert(core.last() == '`');
    lemma_trim_exact(before, core, after);
    let body = payload + fence();
    assert(core == open + body);
    assert(body.first() == payload.first());
    assert(!json_fence().is_prefix_of(body)) by {
        if json_fence().is_prefix_of(body) {
            assert(body.subrange(0, 7)[0] == json_fence()[0]);
        }
    }
    assert(!fence().is_prefix_of(body)) by {
        if fence().is_prefix_of(body) {
            assert(body.subrange(0, 3)[0] == fence()[0]);
        }
    }
    assert(strip_leading(body, json_fence()) == body);
    assert(strip_leading(body, fence()) == body);
    assert(core.skip(open.len() as int) == body);
    if tagged {
        assert(json_fence().is_prefix_of(core)) by {
            assert(json_fence() =~= core.subrange(0, 7));
        }
        assert(strip_leading(core, json_fence()) == body);
    } else {
        assert(!json_fence().is_prefix_of(core)) by {
            if json_fence().is_prefix_of(core) {
                assert(core.subrange(0, 7)[3] == json_fence()[3]);
                assert(core[3] == payload[0]);
            }
        }
        assert(strip_leading(core, json_fence()) == core);
        assert(fence().is_prefix_of(core)) by {
            assert(fence() =~= core.subrange(0, 3));
        }
        assert(strip_leading(core, fence()) == body);
    }
    assert(strip_leading(strip_leading(core, json_fence()), fence()) == body);
    assert(fence().is_suffix_of(body)) by {
        assert(fence() =~= body.subrange(body.len() - 3, body.len() as int));
    }
    assert(body.take(body.len() - 3) == payload);
    assert(!fence().is_suffix_of(payload)) by {
        if fence().is_suffix_of(payload) {
            assert(payload.subrange(payload.len() - 3, payload.len() as int)[2] == fence()[2]);
        }
    }
    assert(strip_trailing(payload, fence()) == payload);
    assert(strip_trailing(body, fence()) == payload);
}

/// Wrapping a payload in a fenced block changes what reaches the parser by
/// outer white space at most: once trimmed, what is recovered from the
/// wrapped reply is what is recovered from the bare one.
pub proof fn lemma_wrapping_is_transparent(
    before: Seq<char>,
    tagged: bool,
    inner_before: Seq<char>,
    payload: Seq<char>,
    inner_after: Seq<char>,
    after: Seq<char>,
)
    requires
        all_white_space(before),
        all_white_space(after),
        all_white_space(inner_before),
        all_white_space(inner_after),
        is_bare_payload(payload),
        !tagged ==> payload.first() != 'j',
    ensures
        without_fences(inner_before + payload + inner_after) == payload,
        trim_spec(
            without_fences(
                before + (if tagged {
                    json_fence()
                } else {
                    fence()
                }) + (inner_before + payload + inner_after) + fence() + after,
            ),
        ) == without_fences(inner_before + payload + inner_after),
{
    let bare = inner_before + payload + inner_after;
    lemma_trim_exact(inner_before, payload, inner_after);
    assert(!fence().is_prefix_of(payload)) by {
        if fence().is_prefix_of(payload) {
            assert(payload.subrange(0, 3)[0] == fence()[0]);
        }
    }
    assert(!fence().is_suffix_of(payload)) by {
        if fence().is_suffix_of(payload) {
            assert(payload.subrange(payload.len() - 3, payload.len() as int)[2] == fence()[2]);
        }
    }
    lemma_undecorated_unchanged(payload);
    assert(without_fences(bare) == payload) by {
        assert(trim_spec(bare) == payload);
        assert(trim_spec(payload) == payload);
    }
    assert(bare.first() != '`') by {
        if inner_before.len() > 0 {
            assert(bare.first() == inner_before[0]);
            assert(is_white_space(inner_before[0]));
        } else {
            assert(bare.first() == payload.first());
        }
    }
    assert(bare.last() != '`') by {
        if inner_after.len() > 0 {
            assert(bare.last() == inner_after[inner_after.len() - 1]);
            assert(is_white_space(inner_after[inner_after.len() - 1]));
        } else {
            assert(bare.last() == payload.last());
        }
    }
    assert(!tagged ==> bare.first() != 'j') by {
        if inner_before.len() > 0 {
            assert(bare.first() == inner_before[0]);
            assert(is_white_space(inner_before[0]));
        } else {
            assert(bare.first() == payload.first());
        }
    }
    lemma_fenced_payload_recovered(before, tagged, bare, after);
}

/// Tests a character for the Unicode `White_Space` property.
pub fn is_whitespace(c: char) -> (r: bool)
    ensures
        r == is_white_space(c),
{
    let n: u32 = c as u32;
    (0x09 <= n && n <= 0x0D) || n == 0x20 || n == 0x85 || n == 0xA0 || n == 0x1680 || (0x2000 <= n
        && n <= 0x200A) || n == 0x2028 || n == 0x2029 || n == 0x202F || n == 0x205F || n == 0x3000
}

/// The characters of `s`, in order.
pub fn chars_of(s: &str) -> (out: Vec<char>)
    ensures
        out@ == s@,
{
    let mut out: Vec<char> = Vec::new();
    for c in it: s.chars()
        invariant
            it.seq() == s@,
            out@ == s@.take(it.index() as int),
    {
        out.push(c);
    }
    out
}

/// First index at or after `lo` from which the window `[lo, hi)` of `chars`
/// no longer starts with white space.
fn skip_leading_space(chars: &Vec<char>, lo: usize, hi: usize) -> (r: usize)
    requires
        lo <= hi <= chars.len(),
    ensures
        lo <= r <= hi,
        chars@.subrange(r as int, hi as int) == trim_start_spec(
            chars@.subrange(lo as int, hi as int),
        ),
{
    let mut i: usize = lo;
    while i < hi && is_whitespace(chars[i])
        invariant
            lo <= i <= hi <= chars.len(),
            trim_start_spec(chars@.subrange(i as int, hi as int)) == trim_start_spec(
                chars@.subrange(lo as int, hi as int),
            ),
        decreases hi - i,
    {
        assert(chars@.subrange(i as int, hi as int).drop_first() == chars@.subrange(
            i + 1,
            hi as int,
        ));
        i = i + 1;
    }
    i
}

/// End of the window `[lo, hi)` of `chars` once its trailing white space is cut.
fn drop_trailing_space(chars: &Vec<char>, lo: usize, hi: usize) -> (r: usize)
    requires
        lo <= hi <= chars.len(),
    ensures
        lo <= r <= hi,
        chars@.subrange(lo as int, r as int) == trim_end_spec(
            chars@.subrange(lo as int, hi as int),
        ),
{
    let mut j: usize = hi;
    while lo < j && is_whitespace(chars[j - 1])
        invariant
            lo <= j <= hi <= chars.len(),
            trim_end_spec(chars@.subrange(lo as int, j as int)) == trim_end_spec(
                chars@.subrange(lo as int, hi as int),
            ),
        decreases j - lo,
    {
        assert(chars@.subrange(lo as int, j as int).drop_last() == chars@.subrange(
            lo as int,
            j - 1,
        ));
        j = j - 1;
    }
    j
}

/// Whether the window `[lo, hi)` of `chars` starts with `pat`.
fn window_starts_with(chars: &Vec<char>, lo: usize, hi: usize, pat: &Vec<char>) -> (r: bool)
    requires
        lo <= hi <= chars.len(),
    ensures
        r == pat@.is_prefix_of(chars@.subrange(lo as int, hi as int)),
{
    if pat.len() > hi - lo {
        return false;
    }
    let mut k: usize = 0;
    while k < pat.len()
        invariant
            lo <= hi <= chars.len(),
            k <= pat.len() <= hi - lo,
            forall|m: int| 0 <= m < k ==> pat@[m] == chars@[lo + m],
        decreases pat.len() - k,
    {
        if pat[k] != chars[lo + k] {
            assert(chars@.subrange(lo as int, hi as int).subrange(0, pat.len() as int)[k as int]
                != pat@[k as int]);
            return false;
        }
        k = k + 1;
    }
    assert(pat@ =~= chars@.subrange(lo as int, hi as int).subrange(0, pat.len() as int));
    true
}

/// Whether the window `[lo, hi)` of `chars` ends with `pat`.
fn window_ends_with(chars: &Vec<char>, lo: usize, hi: usize, pat: &Vec<char>) -> (r: bool)
    requires
        lo <= hi <= chars.len(),
    ensures
        r == pat@.is_suffix_of(chars@.subrange(lo as int, hi as int)),
{
    if pat.len() > hi - lo {
        return false;
    }
    let base: usize = hi - pat.len();
    let ghost window = chars@.subrange(lo as int, hi as int);
    let mut k: usize = 0;
    while k < pat.len()
        invariant
            lo <= base,
            base + pat.len() == hi,
            hi <= chars.len(),
            k <= pat.len(),
            window == chars@.subrange(lo as int, hi as int),
            forall|m: int| 0 <= m < k ==> pat@[m] == chars@[base + m],
        decreases pat.len() - k,
    {
        if pat[k] != chars[base + k] {
            assert(window.subrange(window.len() - pat.len(), window.len() as int)[k as int]
                != pat@[k as int]);
            return false;
        }
        k = k + 1;
    }
    assert(pat@ =~= window.subrange(window.len() - pat.len(), window.len() as int));
    true
}

/// Start of the window `[lo, hi)` of `chars` once every leading `pat` is cut.
fn skip_leading(chars: &Vec<char>, lo: usize, hi: usize, pat: &Vec<char>) -> (r: usize)
    requires
        lo <= hi <= chars.len(),
    ensures
        lo <= r <= hi,
        chars@.subrange(r as int, hi as int) == strip_leading(
            chars@.subrange(lo as int, hi as int),
            pat@,
        ),
{
    let mut i: usize = lo;
    if pat.len() == 0 {
        return i;
    }
    while window_starts_with(chars, i, hi, pat)
        invariant
            lo <= i <= hi <= chars.len(),
            pat.len() > 0,
            strip_leading(chars@.subrange(i as int, hi as int), pat@) == strip_leading(
                chars@.subrange(lo as int, hi as int),
                pat@,
            ),
        decreases hi - i,
    {
        assert(chars@.subrange(i as int, hi as int).skip(pat.len() as int) == chars@.subrange(
            i + pat.len(),
            hi as int,
        ));
        i = i + pat.len();
    }
    i
}

/// End of the window `[lo, hi)` of `chars` once every trailing `pat` is cut.
fn drop_trailing(chars: &Vec<char>, lo: usize, hi: usize, pat: &Vec<char>) -> (r: usize)
    requires
        lo <= hi <= chars.len(),
    ensures
        lo <= r <= hi,
        chars@.subrange(lo as int, r as int) == strip_trailing(
            chars@.subrange(lo as int, hi as int),
            pat@,
        ),
{
    let mut j: usize = hi;
    if pat.len() == 0 {
        return j;
    }
    while window_ends_with(chars, lo, j, pat)
        invariant
            lo <= j <= hi <= chars.len(),
            pat.len() > 0,
            strip_trailing(chars@.subrange(lo as int, j as int), pat@) == strip_trailing(
                chars@.subrange(lo as int, hi as int),
                pat@,
            ),
        decreases j - lo,
    {
        assert(chars@.subrange(lo as int, j as int).take(j - lo - pat.len()) == chars@.subrange(
            lo as int,
            j - pat.len(),
        ));
        j = j - pat.len();
    }
    j
}

/// Removes the decoration that may surround a payload in a backend reply:
/// outer white space, then leading fence markers (tagged as JSON or plain),
/// then trailing fence markers.
pub fn strip_fences(text: &str) -> (r: &str)
    ensures
        r@ == without_fences(text@),
{
    let chars = chars_of(text);
    let tagged: Vec<char> = vec!['`', '`', '`', 'j', 's', 'o', 'n'];
    let plain: Vec<char> = vec!['`', '`', '`'];
    assert(tagged@ == json_fence());
    assert(plain@ == fence());
    assert(chars@.subrange(0, chars.len() as int) == chars@);
    let a = skip_leading_space(&chars, 0, chars.len());
    let z = drop_trailing_space(&chars, a, chars.len());
    let b = skip_leading(&chars, a, z, &tagged);
    let c = skip_leading(&chars, b, z, &plain);
    let d = drop_trailing(&chars, c, z, &plain);
    text.substring_char(c, d)
}

} // verus!
