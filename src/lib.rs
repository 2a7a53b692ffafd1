//! Edit a UTF-8 `String` as a byte array. The edited bytes replace the
//! string's contents only when they are still valid UTF-8.

use vstd::prelude::*;
use vstd::utf8::*;

verus! {

/// Mutable view of a string's contents as bytes. It starts out borrowing
/// the string's bytes and copies them on the first request for write access.
pub enum MutableStringBytes<'a> {
    Borrowed(&'a [u8]),
    Owned(Vec<u8>),
}

impl<'a> View for MutableStringBytes<'a> {
    type V = Seq<u8>;

    open spec fn view(&self) -> Seq<u8> {
        match self {
            MutableStringBytes::Borrowed(s) => s@,
            MutableStringBytes::Owned(v) => v@,
        }
    }
}

/// Read access, in either state, without copying.
impl<'a> core::ops::Deref for MutableStringBytes<'a> {
    type Target = [u8];

    fn deref(&self) -> (r: &[u8])
        ensures
            r@ == self@,
    {
        match self {
            MutableStringBytes::Borrowed(slice) => *slice,
            MutableStringBytes::Owned(vec) => vec.as_slice(),
        }
    }
}

/// Write access. The first call copies the borrowed bytes into an owned
/// buffer; later calls hand out that same buffer, so a view copies at most once.
impl<'a> core::ops::DerefMut for MutableStringBytes<'a> {
    fn deref_mut(&mut self) -> (r: &mut [u8])
        ensures
            final(self)@ == final(r)@,
            r@ == old(self)@,
            *final(self) is Owned,
    {
        if let MutableStringBytes::Borrowed(slice) = self {
            let v = vstd::slice::slice_to_vec(slice);
            *self = MutableStringBytes::Owned(v);
        }
        match self {
            MutableStringBytes::Borrowed(_) => {
                proof { assert(false); }
                &mut []
            },
            MutableStringBytes::Owned(vec) => vec.as_mut_slice(),
        }
    }
}

/// Errors that can occur while mutating strings.
#[derive(Debug, PartialEq, Eq, Structural)]
pub enum Error {
    InvalidUtf8,
}

impl Error {
    /// Human-readable description of the error.
    pub fn message(&self) -> (r: &'static str)
        ensures
            r@ == "MutableStringBytes contains invalid UTF-8 after modifications"@,
    {
        "MutableStringBytes contains invalid UTF-8 after modifications"
    }
}

/// Relies on `String::from_utf8`: it succeeds exactly on valid UTF-8 and
/// then holds the decoded characters.
#[verifier::external_body]
fn string_from_utf8(v: Vec<u8>) -> (r: Option<String>)
    ensures
        r is Some <==> valid_utf8(v@),
        r matches Some(s) ==> s@ == decode_utf8(v@),
{
    String::from_utf8(v).ok()
}

/// Extension trait for editing a mutable string as bytes.
pub trait WithCheckedBytes {
    /// The bytes of the text held in `self`.
    spec fn text_bytes(&self) -> Seq<u8>;

    /// Edit the string as if it were a byte array.
    ///
    /// The closure runs once with a view of the string's bytes. If it wrote
    /// through the view and the bytes are no longer valid UTF-8, the string is
    /// left as it was and `Error::InvalidUtf8` is returned. Otherwise the
    /// string holds the view's bytes and the closure's value is returned.
    fn with_checked_bytes_mut<R, F>(&mut self, f: F) -> (r: Result<R, Error>)
        where
            F: for<'b> FnOnce(&'b mut MutableStringBytes) -> R,
        requires
            forall|m: &mut MutableStringBytes|
                (*m) is Borrowed && (*m)@ == old(self).text_bytes() ==> #[trigger] f.requires((m,)),
        ensures
            exists|m: &mut MutableStringBytes, ret: R|
                (*m) is Borrowed && (*m)@ == old(self).text_bytes() && #[trigger] f.ensures((m,), ret)
                && outcome(old(self).text_bytes(), *final(m), ret, r, final(self).text_bytes()),
    ;
}

/// What a call of `with_checked_bytes_mut` produces, given the string's bytes
/// `before`, the view as the closure left it, and the closure's return value
/// `ret`: the call's result `r` and the string's bytes `after`.
pub open spec fn outcome<R>(before: Seq<u8>, view: MutableStringBytes, ret: R, r: Result<R, Error>, after: Seq<u8>) -> bool {
    match view {
        MutableStringBytes::Borrowed(_) => r == Ok::<R, Error>(ret) && after == before,
        MutableStringBytes::Owned(v) => if valid_utf8(v@) {
            r == Ok::<R, Error>(ret) && after == v@
        } else {
            r == Err::<R, Error>(Error::InvalidUtf8) && after == before
        },
    }
}

/// Implemented for `String`, whose contents can be replaced without
/// writing through the bytes of a `str` in place.
impl WithCheckedBytes for String {
    open spec fn text_bytes(&self) -> Seq<u8> {
        encode_utf8(self@)
    }

    fn with_checked_bytes_mut<R, F>(&mut self, f: F) -> (r: Result<R, Error>)
        where
            F: for<'b> FnOnce(&'b mut MutableStringBytes) -> R,
    {
        let mut target = MutableStringBytes::Borrowed(self.as_str().as_bytes());
        let tref = &mut target;
        let ghost initial = tref;
        let res = f(tref);
        let ghost arg = choose|m: &mut MutableStringBytes|
            f.ensures((m,), res) && *m == *initial && *final(m) == *final(initial);
        assert(f.ensures((arg,), res));
        match target {
            MutableStringBytes::Borrowed(_) => Ok(res),
            MutableStringBytes::Owned(v) => {
                let ghost bytes = v@;
                match string_from_utf8(v) {
                    Some(s) => {
                        proof {
                            decode_utf8_encode_utf8(bytes);
                        }
                        *self = s;
                        Ok(res)
                    },
                    None => Err(Error::InvalidUtf8),
                }
            },
        }
    }
}

/// A closure that never asks for write access leaves the view borrowed: the
/// call succeeds with the closure's value and the text is unchanged.
pub proof fn lemma_read_only_keeps_text<R>(
    before: Seq<u8>,
    view: MutableStringBytes,
    ret: R,
    r: Result<R, Error>,
    after: Seq<u8>,
)
    requires
        view is Borrowed,
        outcome(before, view, ret, r, after),
    ensures
        r == Ok::<R, Error>(ret),
        after == before,
{
}

/// When the edited bytes are valid UTF-8, the call succeeds and the text's
/// bytes are exactly the edited bytes.
pub proof fn lemma_valid_edit_commits<R>(
    before: Seq<u8>,
    view: MutableStringBytes,
    ret: R,
    r: Result<R, Error>,
    after: Seq<u8>,
)
    requires
        view is Owned,
        valid_utf8(view@),
        outcome(before, view, ret, r, after),
    ensures
        r is Ok,
        after == view@,
{
}

/// When the edited bytes are not valid UTF-8, the call fails with
/// `InvalidUtf8` and the text's bytes are those it had before.
pub proof fn lemma_invalid_edit_rolls_back<R>(
    before: Seq<u8>,
    view: MutableStringBytes,
    ret: R,
    r: Result<R, Error>,
    after: Seq<u8>,
)
    requires
        view is Owned,
        !valid_utf8(view@),
        outcome(before, view, ret, r, after),
    ensures
        r == Err::<R, Error>(Error::InvalidUtf8),
        after == before,
{
}

/// A successful call returns the closure's value unchanged, whether or not
/// the closure wrote.
pub proof fn lemma_success_returns_closure_value<R>(
    before: Seq<u8>,
    view: MutableStringBytes,
    ret: R,
    r: Result<R, Error>,
    after: Seq<u8>,
)
    requires
        outcome(before, view, ret, r, after),
        r is Ok,
    ensures
        r == Ok::<R, Error>(ret),
{
}

/// Every outcome leaves the text as valid UTF-8, given that it was before.
pub proof fn lemma_text_stays_valid<R>(
    before: Seq<u8>,
    view: MutableStringBytes,
    ret: R,
    r: Result<R, Error>,
    after: Seq<u8>,
)
    requires
        valid_utf8(before),
        outcome(before, view, ret, r, after),
    ensures
        valid_utf8(after),
{
}

} // verus!
