//! Interpreting what OpenGL reports after compiling a shader or linking a
//! program: a status word and, on failure, a NUL-terminated info log.
use vstd::prelude::*;
use vstd::string::StringSliceAdditionalSpecFns;
use vstd::utf8::*;

verus! {

broadcast use vstd::utf8::encode_utf8_decode_utf8;

/// The bytes of an info log buffer that come before its first NUL byte
/// (the whole buffer when it holds none).
pub open spec fn log_prefix(buf: Seq<u8>) -> Seq<u8>
    decreases buf.len(),
{
    if buf.len() == 0 || buf[0] == 0 {
        Seq::empty()
    } else {
        seq![buf[0]] + log_prefix(buf.drop_first())
    }
}

/// The message that a log buffer carries, when its text is valid UTF-8.
pub open spec fn log_message(buf: Seq<u8>) -> Option<Seq<char>> {
    if valid_utf8(log_prefix(buf)) {
        Some(decode_utf8(log_prefix(buf)))
    } else {
        None
    }
}

/// `n` marks where the text of `buf` ends: no NUL before it, and a NUL or
/// the end of the buffer at it.
pub open spec fn is_text_end(buf: Seq<u8>, n: int) -> bool {
    &&& 0 <= n <= buf.len()
    &&& forall|i: int| 0 <= i < n ==> buf[i] != 0
    &&& (n == buf.len() || buf[n] == 0)
}

/// The text of a buffer is exactly the bytes up to its text end.
pub proof fn lemma_log_prefix_is_take(buf: Seq<u8>, n: int)
    requires
        is_text_end(buf, n),
    ensures
        log_prefix(buf) == buf.take(n),
    decreases buf.len(),
{
    if buf.len() == 0 || buf[0] == 0 {
        assert(buf.take(n) =~= Seq::<u8>::empty());
    } else {
        let rest = buf.drop_first();
        assert forall|i: int| 0 <= i < n - 1 implies rest[i] != 0 by {
            assert(buf[i + 1] != 0);
        }
        lemma_log_prefix_is_take(rest, n - 1);
        assert(buf.take(n) =~= seq![buf[0]] + rest.take(n - 1));
    }
}

/// The text of a buffer holds no NUL byte, and is shorter than the buffer
/// when the buffer holds one.
pub proof fn lemma_log_prefix_bounds(buf: Seq<u8>)
    ensures
        !log_prefix(buf).contains(0u8),
        log_prefix(buf).len() <= buf.len(),
        buf.contains(0u8) ==> log_prefix(buf).len() < buf.len(),
    decreases buf.len(),
{
    if buf.len() == 0 || buf[0] == 0 {
    } else {
        let rest = buf.drop_first();
        lemma_log_prefix_bounds(rest);
        let p = log_prefix(buf);
        assert(p == seq![buf[0]] + log_prefix(rest));
        if p.contains(0u8) {
            let i = choose|i: int| 0 <= i < p.len() && p[i] == 0u8;
            assert(log_prefix(rest)[i - 1] == 0u8);
        }
        if buf.contains(0u8) {
            let j = choose|j: int| 0 <= j < buf.len() && buf[j] == 0u8;
            assert(rest[j - 1] == 0u8);
        }
    }
}

/// A NUL character encodes to a NUL byte.
proof fn lemma_encode_nul(chars: Seq<char>, i: int)
    requires
        0 <= i < chars.len(),
        chars[i] == '\0',
    ensures
        encode_utf8(chars).contains(0u8),
    decreases i,
{
    let rest = chars.drop_first();
    assert(encode_utf8(chars) == encode_scalar(chars[0] as u32) + encode_utf8(rest));
    if i == 0 {
        assert(0u32 & 0x7Fu32 == 0u32) by (bit_vector);
        assert(encode_utf8(chars)[0] == 0u8);
    } else {
        lemma_encode_nul(rest, i - 1);
        let k = choose|k: int| 0 <= k < encode_utf8(rest).len() && encode_utf8(rest)[k] == 0u8;
        let head = encode_scalar(chars[0] as u32);
        assert(encode_utf8(chars)[head.len() + k] == 0u8);
    }
}

/// Text whose encoding holds no NUL byte holds no NUL character.
proof fn lemma_no_nul_char(chars: Seq<char>)
    requires
        !encode_utf8(chars).contains(0u8),
    ensures
        !chars.contains('\0'),
{
    if chars.contains('\0') {
        let i = choose|i: int| 0 <= i < chars.len() && chars[i] == '\0';
        lemma_encode_nul(chars, i);
    }
}

/// `std::str::from_utf8`: the standard library documents that it succeeds
/// exactly on valid UTF-8 and that the string it returns has the given bytes.
#[verifier::external_body]
fn str_from_utf8(bytes: &[u8]) -> (r: Option<&str>)
    ensures
        r is Some <==> valid_utf8(bytes@),
        r matches Some(s) ==> s.spec_bytes() == bytes@,
{
    std::str::from_utf8(bytes).ok()
}

/// Index of the first NUL byte of `buf`, or its length when there is none.
pub fn text_end(buf: &[u8]) -> (n: usize)
    ensures
        is_text_end(buf@, n as int),
{
    let mut n: usize = 0;
    while n < buf.len()
        invariant
            n <= buf@.len(),
            forall|i: int| 0 <= i < n ==> buf@[i] != 0,
        decreases buf@.len() - n,
    {
        if buf[n] == 0 {
            return n;
        }
        n = n + 1;
    }
    n
}

/// Decodes the message of an info log buffer: the text before its first NUL
/// byte, read as UTF-8. `None` when that text is not valid UTF-8.
pub fn info_log_text(buf: &[u8]) -> (r: Option<String>)
    ensures
        r is Some <==> log_message(buf@) is Some,
        r matches Some(s) ==> s@ == log_message(buf@)->0,
        r matches Some(s) ==> encode_utf8(s@) == log_prefix(buf@),
        r matches Some(s) ==> !s@.contains('\0'),
        r matches Some(s) ==> encode_utf8(s@).len() <= buf@.len(),
        r matches Some(s) ==> (buf@.contains(0u8) ==> encode_utf8(s@).len() < buf@.len()),
        r matches Some(s) ==> encode_utf8(s@) == buf@.take(encode_utf8(s@).len() as int),
        r matches Some(s) ==> (encode_utf8(s@).len() == buf@.len() || buf@[encode_utf8(
            s@,
        ).len() as int] == 0),
        r is None ==> forall|n: int|
            0 <= n <= buf@.len() && (forall|i: int| 0 <= i < n ==> buf@[i] != 0) && (n == buf@.len()
                || buf@[n] == 0) ==> !valid_utf8(#[trigger] buf@.take(n)),
{
    let n = text_end(buf);
    proof {
        lemma_log_prefix_is_take(buf@, n as int);
    }
    let text = vstd::slice::slice_subrange(buf, 0, n);
    assert(text@ == log_prefix(buf@));
    match str_from_utf8(text) {
        Some(s) => {
            let owned = s.to_owned();
            assert(decode_utf8(encode_utf8(s@)) == s@);
            proof {
                lemma_log_prefix_bounds(buf@);
                lemma_no_nul_char(s@);
            }
            Some(owned)
        },
        None => {
            proof {
                assert forall|m: int|
                    0 <= m <= buf@.len() && (forall|i: int| 0 <= i < m ==> buf@[i] != 0) && (m
                        == buf@.len() || buf@[m] == 0) implies !valid_utf8(
                    #[trigger] buf@.take(m),
                ) by {
                    lemma_log_prefix_is_take(buf@, m);
                }
            }
            None
        },
    }
}

/// Turns the status that OpenGL reported for object `uid` into a result:
/// `Ok(uid)` when the status is non-zero, otherwise `Err` with the message of
/// the info log that was read for it (`info_log` is read only in that case).
pub fn get_status_and_output(uid: u32, status: i32, info_log: &[u8]) -> (r: Result<u32, String>)
    requires
        status == 0 ==> log_message(info_log@) is Some,
    ensures
        status != 0 ==> r == Ok::<u32, String>(uid),
        status == 0 ==> (r matches Err(m) && m@ == log_message(info_log@)->0),
        r matches Err(m) ==> encode_utf8(m@) == log_prefix(info_log@),
        r matches Err(m) ==> !m@.contains('\0'),
        r matches Err(m) ==> (info_log@.contains(0u8) ==> encode_utf8(m@).len() < info_log@.len()),
        r matches Err(m) ==> encode_utf8(m@) == info_log@.take(encode_utf8(m@).len() as int),
        r matches Err(m) ==> (encode_utf8(m@).len() == info_log@.len() || info_log@[encode_utf8(
            m@,
        ).len() as int] == 0),
{
    if status == 0 {
        match info_log_text(info_log) {
            Some(msg) => Err(msg),
            None => {
                // ruled out by the precondition
                assert(false);
                Err(String::new())
            },
        }
    } else {
        Ok(uid)
    }
}

} // verus!
