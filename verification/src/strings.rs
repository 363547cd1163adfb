//! String decoders: fixed-length UTF-8 text and null-terminated text, both
//! specified against vstd's UTF-8 model.

use vstd::prelude::*;

use vstd::utf8::decode_utf8;
use vstd::utf8::valid_utf8;

use crate::lemma_model_pos_nonneg;
use crate::spec_read_bytes;
use crate::Raf;
use crate::RafError;

verus! {

/// The index of the first zero byte of `s` at or after `p`, or the length
/// of `s` when no such byte exists (or `p` is already outside `s`).
pub open spec fn first_nul_from(s: Seq<u8>, p: int) -> int
    decreases s.len() - p,
{
    if p < 0 || p >= s.len() {
        s.len() as int
    } else if s[p] == 0 {
        p
    } else {
        first_nul_from(s, p + 1)
    }
}

/// `first_nul_from` finds a zero byte, skips no zero byte, and stays within
/// `[p, s.len()]`.
pub proof fn lemma_first_nul_from(s: Seq<u8>, p: int)
    requires
        0 <= p <= s.len(),
    ensures
        p <= first_nul_from(s, p) <= s.len(),
        first_nul_from(s, p) < s.len() ==> s[first_nul_from(s, p)] == 0,
        forall|i: int| p <= i < first_nul_from(s, p) ==> s[i] != 0,
    decreases s.len() - p,
{
    if p < s.len() && s[p] != 0 {
        lemma_first_nul_from(s, p + 1);
    }
}

/// Relies on `String::from_utf8`: returns the string decoded from the bytes
/// exactly when they are valid UTF-8.
#[verifier::external_body]
fn utf8_to_string(bytes: Vec<u8>) -> (r: Option<String>)
    ensures
        (match r {
            Some(s) => valid_utf8(bytes@) && s@ == decode_utf8(bytes@),
            None => !valid_utf8(bytes@),
        }),
{
    String::from_utf8(bytes).ok()
}

impl Raf {
    /// Reads `len` bytes and validates them as UTF-8 text. On invalid text
    /// it fails with `StrParseError`, the cursor left past the bytes read;
    /// a range failure is the raw reader's, with the cursor untouched.
    pub fn read_string(&mut self, len: usize) -> (r: Result<String, RafError>)
        requires
            old(self).wf(),
        ensures
            final(self).wf(),
            final(self)@ == spec_read_bytes(old(self)@, len as int).0,
            (match (r, spec_read_bytes(old(self)@, len as int).1) {
                (Ok(out), Ok(bytes)) => valid_utf8(bytes) && out@ == decode_utf8(bytes),
                (Err(e), Ok(bytes)) => e == RafError::StrParseError && !valid_utf8(bytes),
                (Err(e), Err(e2)) => e == e2,
                (Ok(_), Err(_)) => false,
            }),
    {
        let bytes = match self.read_bytes(len) {
            Ok(b) => b,
            Err(e) => {
                return Err(e);
            },
        };
        match utf8_to_string(bytes) {
            Some(s) => Ok(s),
            None => Err(RafError::StrParseError),
        }
    }

    /// Reads single bytes up to, and consuming, the first zero byte, then
    /// validates the bytes before it as UTF-8 text. Without a terminator
    /// the single-byte reader's `StartOutOfRange` propagates, the cursor
    /// left at the end of the buffer.
    pub fn read_cstr(&mut self) -> (r: Result<String, RafError>)
        requires
            old(self).wf(),
        ensures
            final(self).wf(),
            final(self)@.data == old(self)@.data,
            final(self)@.bo == old(self)@.bo,
            ({
                let s = old(self)@.data;
                let p = old(self)@.pos;
                let k = first_nul_from(s, p);
                &&& (p < s.len() && k < s.len() ==> {
                    let bytes = s.subrange(p, k);
                    &&& final(self)@.pos == k + 1
                    &&& (match r {
                        Ok(out) => valid_utf8(bytes) && out@ == decode_utf8(bytes),
                        Err(e) => e == RafError::StrParseError && !valid_utf8(bytes),
                    })
                })
                &&& (p < s.len() && k == s.len() ==> final(self)@.pos == s.len() && r == Err::<
                    String,
                    RafError,
                >(RafError::StartOutOfRange))
                &&& (p >= s.len() ==> final(self)@.pos == p && r == Err::<String, RafError>(
                    RafError::StartOutOfRange,
                ))
            }),
    {
        proof {
            lemma_model_pos_nonneg(self);
            if self@.pos <= self@.data.len() {
                lemma_first_nul_from(self@.data, self@.pos);
            }
        }
        let ghost m0 = self@;
        let mut bytes: Vec<u8> = Vec::new();
        loop
            invariant
                m0 == old(self)@,
                self.wf(),
                self@.data == m0.data,
                self@.bo == m0.bo,
                0 <= m0.pos <= self@.pos,
                m0.pos <= m0.data.len() ==> self@.pos <= first_nul_from(m0.data, m0.pos),
                m0.pos <= m0.data.len() ==> bytes@ == m0.data.subrange(m0.pos, self@.pos),
                m0.pos <= m0.data.len() ==> first_nul_from(m0.data, self@.pos) == first_nul_from(
                    m0.data,
                    m0.pos,
                ),
                m0.pos > m0.data.len() ==> self@.pos == m0.pos,
            decreases m0.data.len() - self@.pos + 1,
        {
            let ghost p_cur = self@.pos;
            let next_byte = match self.read_byte() {
                Ok(b) => b,
                Err(e) => {
                    proof {
                        if m0.pos <= m0.data.len() {
                            lemma_first_nul_from(m0.data, m0.pos);
                        }
                    }
                    return Err(e);
                },
            };
            if next_byte == 0 {
                proof {
                    lemma_first_nul_from(m0.data, m0.pos);
                }
                return match utf8_to_string(bytes) {
                    Some(s) => Ok(s),
                    None => Err(RafError::StrParseError),
                };
            } else {
                bytes.push(next_byte);
                proof {
                    assert(bytes@ =~= m0.data.subrange(m0.pos, p_cur + 1));
                    assert(first_nul_from(m0.data, p_cur) == first_nul_from(m0.data, p_cur + 1));
                    lemma_first_nul_from(m0.data, p_cur + 1);
                }
            }
        }
    }
}

} // verus!
