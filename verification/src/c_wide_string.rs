//! A wide analog of a C string: 16-bit code units, terminated by a single
//! trailing nul unit and containing no interior nul.
//!
//! [`CWideString`] owns its storage; [`CWideStr`] is a borrowed view.  Both
//! keep the same invariant, so a terminator-inclusive buffer taken from
//! either is always safe to hand across a nul-terminated foreign string ABI.

use vstd::prelude::*;
use vstd::slice::slice_index_get;
use vstd::slice::slice_subrange;
use crate::utf16::WideChars;

verus! {

/// A terminator-inclusive unit sequence is valid when it is nonempty, its
/// last unit is the nul terminator, and no other unit is nul.
pub open spec fn valid_wide(s: Seq<u16>) -> bool {
    &&& s.len() >= 1
    &&& s[s.len() - 1] == 0
    &&& forall|i: int| 0 <= i < s.len() - 1 ==> s[i] != 0
}

/// `p` is the position of the first nul unit of `s`.
pub open spec fn is_first_nul(s: Seq<u16>, p: int) -> bool {
    &&& 0 <= p < s.len()
    &&& s[p] == 0
    &&& forall|j: int| 0 <= j < p ==> s[j] != 0
}

/// `s` holds no nul unit at all.
pub open spec fn nul_free(s: Seq<u16>) -> bool {
    forall|i: int| 0 <= i < s.len() ==> s[i] != 0
}

/// Implemented for types that can be converted into wide code units.
///
/// The produced units are the raw payload: no terminator is appended, and
/// nul units may occur; validating constructors reject them.
pub trait IntoWide: Sized {
    /// When the conversion may be applied; `true` for most inputs.
    spec fn wide_wf(&self) -> bool;

    /// The unit sequence that the conversion yields.
    spec fn wide_view(&self) -> Seq<u16>;

    /// Convert this into a vec of wide units.
    fn into_wide(self) -> (r: Vec<u16>)
        requires
            self.wide_wf(),
        ensures
            r@ == self.wide_view(),
    ;
}

impl IntoWide for Vec<u16> {
    open spec fn wide_wf(&self) -> bool {
        true
    }

    open spec fn wide_view(&self) -> Seq<u16> {
        self@
    }

    fn into_wide(self) -> (r: Vec<u16>) {
        let mut data = self;
        data.reserve(1);
        data
    }
}

impl IntoWide for &str {
    open spec fn wide_wf(&self) -> bool {
        true
    }

    open spec fn wide_view(&self) -> Seq<u16> {
        crate::utf16::encode_wide((*self)@)
    }

    fn into_wide(self) -> (r: Vec<u16>) {
        let mut ret = crate::utf16::encode_utf16(self);
        ret.reserve(1);
        ret
    }
}

/// An owned, validated wide string: a unit sequence whose last unit is nul
/// and which holds no interior nul.
#[derive(PartialEq, PartialOrd, Eq, Ord, Hash, Clone, Debug)]
pub struct CWideString {
    units: Vec<u16>,
}

impl View for CWideString {
    type V = Seq<u16>;

    closed spec fn view(&self) -> Seq<u16> {
        self.units@
    }
}

impl CWideString {
    /// The type invariant: the owned units are terminator-valid.
    pub open spec fn wf(&self) -> bool {
        valid_wide(self@)
    }

    /// Convert `data` into wide units and validate them.
    ///
    /// On success the units are exactly the converted input followed by one
    /// terminator.  If the input holds a nul unit, the error carries the
    /// position of the first one and the original unit sequence untouched,
    /// with no terminator appended.
    pub fn new<D: IntoWide>(data: D) -> (r: Result<CWideString, NulError>)
        requires
            data.wide_wf(),
        ensures
            match r {
                Ok(s) => {
                    &&& s.wf()
                    &&& nul_free(data.wide_view())
                    &&& s@ == data.wide_view().push(0)
                },
                Err(e) => {
                    &&& is_first_nul(data.wide_view(), e.spec_position() as int)
                    &&& e.spec_data() == data.wide_view()
                },
            },
    {
        let mut units = data.into_wide();
        match first_nul_position(units.as_slice()) {
            Some(p) => Err(NulError(p, units)),
            None => {
                units.push(0);
                Ok(CWideString { units })
            },
        }
    }

    /// Make a new [`CWideString`] from a vec that is nul terminated.
    ///
    /// Three outcomes: success (the only nul is the final unit); a
    /// [`FromWideWithNulErrorKind::NotNulTerminated`] error (no nul found
    /// anywhere); a [`FromWideWithNulErrorKind::InteriorNul`] error (the
    /// first nul sits before the final position).  The error returns the
    /// input unchanged.
    pub fn from_vec_with_nul(data: Vec<u16>) -> (r: Result<CWideString, FromVecWithNulError>)
        ensures
            match r {
                Ok(s) => {
                    &&& s.wf()
                    &&& valid_wide(data@)
                    &&& s@ == data@
                },
                Err(e) => {
                    &&& !valid_wide(data@)
                    &&& e.spec_data() == data@
                    &&& match e.spec_kind() {
                        FromWideWithNulErrorKind::InteriorNul(p) => is_first_nul(data@, p as int)
                            && p + 1 < data@.len(),
                        FromWideWithNulErrorKind::NotNulTerminated => nul_free(data@),
                    }
                },
            },
    {
        match first_nul_position(data.as_slice()) {
            Some(p) => {
                if p == data.len() - 1 {
                    // The only nul is the terminator.
                    Ok(CWideString { units: data })
                } else {
                    Err(FromVecWithNulError {
                        error_kind: FromWideWithNulErrorKind::InteriorNul(p),
                        data,
                    })
                }
            },
            None => {
                assert(data@.len() >= 1 ==> data@[data@.len() - 1] != 0);
                Err(FromVecWithNulError {
                    error_kind: FromWideWithNulErrorKind::NotNulTerminated,
                    data,
                })
            },
        }
    }

    /// Make a new [`CWideString`] from a vec that the caller guarantees to
    /// be nul terminated with no interior nul.  No scan is performed; the
    /// guarantee is a static precondition.
    pub fn from_vec_with_nul_unchecked(data: Vec<u16>) -> (r: CWideString)
        requires
            valid_wide(data@),
        ensures
            r.wf(),
            r@ == data@,
    {
        CWideString { units: data }
    }

    /// Get this as a [`CWideStr`].
    pub fn as_c_wide_str(&self) -> (r: CWideStr<'_>)
        requires
            self.wf(),
        ensures
            r.wf(),
            r@ == self@,
    {
        CWideStr::from_wide_with_nul_unchecked(self.units.as_slice())
    }

    /// Get this as a wide slice, excluding the nul terminator.
    pub fn as_slice(&self) -> (r: &[u16])
        requires
            self.wf(),
        ensures
            r@ == self@.take(self@.len() - 1),
    {
        self.as_c_wide_str().as_slice()
    }

    /// Get this as a wide slice, including the nul terminator.
    pub fn as_slice_with_nul(&self) -> (r: &[u16])
        ensures
            r@ == self@,
    {
        self.units.as_slice()
    }

    /// Iterate over the decoded characters in this string.
    pub fn chars(&self) -> (it: WideChars<'_>)
        requires
            self.wf(),
        ensures
            it.wf(),
            it.spec_units() == self@.take(self@.len() - 1),
            it.spec_pos() == 0,
    {
        self.as_c_wide_str().chars()
    }
}

/// Find the position of the first nul unit, if any.
fn first_nul_position(data: &[u16]) -> (r: Option<usize>)
    ensures
        match r {
            Some(p) => is_first_nul(data@, p as int),
            None => nul_free(data@),
        },
{
    let n = data.len();
    let mut i: usize = 0;
    while i < n
        invariant
            i <= n,
            n == data@.len(),
            forall|j: int| 0 <= j < i ==> data@[j] != 0,
        decreases n - i,
    {
        if *slice_index_get(data, i) == 0 {
            return Some(i);
        }
        i = i + 1;
    }
    None
}

/// The error of a validated construction: the input held a nul unit.
///
/// Carries the position of the first nul and the original, untouched unit
/// sequence, so callers can inspect or reuse the rejected data.
#[derive(Clone, PartialEq, Eq, Debug)]
pub struct NulError(usize, Vec<u16>);

impl NulError {
    /// The position of the first nul unit of the rejected input.
    pub closed spec fn spec_position(&self) -> usize {
        self.0
    }

    /// The rejected input, untouched.
    pub closed spec fn spec_data(&self) -> Seq<u16> {
        self.1@
    }

    /// The position of the nul.
    pub fn nul_position(&self) -> (p: usize)
        ensures
            p == self.spec_position(),
    {
        self.0
    }

    /// Return the erroneous wide string.
    pub fn into_vec(self) -> (v: Vec<u16>)
        ensures
            v@ == self.spec_data(),
    {
        self.1
    }
}

/// The error of [`CWideString::from_vec_with_nul`]: a caller-supplied
/// "already terminated" buffer failed validation.
#[derive(Clone, PartialEq, Eq, Debug)]
pub struct FromVecWithNulError {
    error_kind: FromWideWithNulErrorKind,
    data: Vec<u16>,
}

impl FromVecWithNulError {
    /// Which way the validation failed.
    pub closed spec fn spec_kind(&self) -> FromWideWithNulErrorKind {
        self.error_kind
    }

    /// The rejected input, untouched.
    pub closed spec fn spec_data(&self) -> Seq<u16> {
        self.data@
    }

    /// Which way the validation failed.
    pub fn kind(&self) -> (k: FromWideWithNulErrorKind)
        ensures
            k == self.spec_kind(),
    {
        self.error_kind
    }

    /// Return the erroneous wide string.
    pub fn into_vec(self) -> (v: Vec<u16>)
        ensures
            v@ == self.spec_data(),
    {
        self.data
    }
}

/// How a caller-supplied "already terminated" buffer failed validation.
#[derive(Clone, Copy, PartialEq, Eq, Structural, Debug)]
pub enum FromWideWithNulErrorKind {
    /// A nul unit sits before the final position; carries its position.
    InteriorNul(usize),
    /// No nul unit was found anywhere.
    NotNulTerminated,
}

/// A borrowed view over a valid, terminator-inclusive wide unit sequence.
///
/// It never owns storage; it is produced by referencing a [`CWideString`]
/// or by slicing an existing view at a code-unit offset.
#[derive(Clone, Copy)]
pub struct CWideStr<'a> {
    units: &'a [u16],
}

impl<'a> View for CWideStr<'a> {
    type V = Seq<u16>;

    closed spec fn view(&self) -> Seq<u16> {
        self.units@
    }
}

impl<'a> IntoWide for CWideStr<'a> {
    open spec fn wide_wf(&self) -> bool {
        self.wf()
    }

    open spec fn wide_view(&self) -> Seq<u16> {
        self@.take(self@.len() - 1)
    }

    fn into_wide(self) -> (r: Vec<u16>) {
        let mut ret = vstd::slice::slice_to_vec(self.as_slice());
        ret.reserve(1);
        ret
    }
}

impl<'a> CWideStr<'a> {
    /// The view invariant: the underlying units are terminator-valid.
    pub open spec fn wf(&self) -> bool {
        valid_wide(self@)
    }

    /// Make a new [`CWideStr`] from wide units that the caller guarantees to
    /// be nul terminated with no interior nul.  No scan is performed; the
    /// guarantee is a static precondition.
    pub fn from_wide_with_nul_unchecked(data: &'a [u16]) -> (r: CWideStr<'a>)
        requires
            valid_wide(data@),
        ensures
            r.wf(),
            r@ == data@,
    {
        CWideStr { units: data }
    }

    /// Get this as a wide slice, excluding the nul terminator.
    pub fn as_slice(&self) -> (r: &'a [u16])
        requires
            self.wf(),
        ensures
            r@ == self@.take(self@.len() - 1),
    {
        slice_subrange(self.units, 0, self.units.len() - 1)
    }

    /// Get this as a wide slice, including the nul terminator.
    pub fn as_slice_with_nul(&self) -> (r: &'a [u16])
        ensures
            r@ == self@,
    {
        self.units
    }

    /// The view over the suffix starting at code-unit offset `from`.
    ///
    /// The offset is counted against the terminator-inclusive length and
    /// must lie strictly below it; the result is itself terminator-valid
    /// because it is a suffix that still holds the original terminator.
    pub fn index_from(&self, from: usize) -> (r: CWideStr<'a>)
        requires
            self.wf(),
            from < self@.len(),
        ensures
            r.wf(),
            r@ == self@.subrange(from as int, self@.len() as int),
    {
        proof {
            lemma_suffix_valid(self@, from as int);
        }
        CWideStr { units: slice_subrange(self.units, from, self.units.len()) }
    }

    /// Copy this into an owned [`CWideString`] with the same units.
    pub fn to_c_wide_string(&self) -> (r: CWideString)
        requires
            self.wf(),
        ensures
            r.wf(),
            r@ == self@,
    {
        let copied = vstd::slice::slice_to_vec(self.as_slice_with_nul());
        CWideString::from_vec_with_nul_unchecked(copied)
    }

    /// Iterate over the decoded characters in this string, one decode result
    /// per logical character; a decode failure is reported per element.
    pub fn chars(&self) -> (it: WideChars<'a>)
        requires
            self.wf(),
        ensures
            it.wf(),
            it.spec_units() == self@.take(self@.len() - 1),
            it.spec_pos() == 0,
    {
        WideChars::new(self.as_slice())
    }
}

/// Law: a suffix of a valid unit sequence, taken at an offset strictly
/// below the terminator-inclusive length, is itself valid: it still ends in
/// the original terminator and holds no interior nul.
pub proof fn lemma_suffix_valid(s: Seq<u16>, k: int)
    requires
        valid_wide(s),
        0 <= k < s.len(),
    ensures
        valid_wide(s.subrange(k, s.len() as int)),
{
    let t = s.subrange(k, s.len() as int);
    assert(t[t.len() - 1] == s[s.len() - 1]);
    assert forall|i: int| 0 <= i < t.len() - 1 implies t[i] != 0 by {
        assert(t[i] == s[k + i]);
    }
}

/// Law: validating construction then `as_slice` gives back exactly the
/// input.  For any nul-free unit sequence, appending the terminator yields a
/// valid sequence whose terminator-exclusive prefix is the original.
pub proof fn lemma_new_roundtrip(w: Seq<u16>)
    requires
        nul_free(w),
    ensures
        valid_wide(w.push(0)),
        w.push(0).take(w.push(0).len() - 1) == w,
{
    assert(w.push(0).take(w.push(0).len() - 1) =~= w);
}

/// Law: a nonempty sequence is terminator-valid exactly when its first nul
/// unit is its final unit.  So a terminated sequence whose only nul is the
/// final unit passes `from_vec_with_nul` validation unchanged, and
/// `as_slice_with_nul` then returns the input itself.
pub proof fn lemma_terminated_roundtrip(s: Seq<u16>)
    requires
        s.len() >= 1,
    ensures
        valid_wide(s) <==> is_first_nul(s, s.len() - 1),
{
}

} // verus!
