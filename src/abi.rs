//! ABI compatible results: a signed integer whose non-negative values mean
//! success and whose negative values mean failure.
use vstd::prelude::*;

verus! {

/// An ABI compatible [`Result`] type.
///
/// Signed integers implement it: a positive value or zero indicates success
/// and a negative value failure.
pub trait AbiResult: Copy + Sized {
    /// Whether the value stands for success.
    spec fn is_ok_abi(self) -> bool;

    /// Tells success from failure.
    fn is_ok(self) -> (r: bool)
        ensures
            r == self.is_ok_abi(),
    ;
}

/// Sorts `value` into an [`OkVal`] or an [`ErrVal`].
pub fn check<R: AbiResult>(value: R) -> (r: Result<OkVal<R>, ErrVal<R>>)
    ensures
        match r {
            Ok(o) => value.is_ok_abi() && o.value() == value,
            Err(e) => !value.is_ok_abi() && e.value() == value,
        },
{
    if value.is_ok() {
        Ok(OkVal(value))
    } else {
        Err(ErrVal(value))
    }
}

/// Wrapper around an [`AbiResult`] value which is guaranteed to represent `Ok`.
#[derive(Copy, Debug)]
pub struct OkVal<R: AbiResult>(R);

/// Wrapper around an [`AbiResult`] value which is guaranteed to represent `Err`.
#[derive(Copy, Debug)]
pub struct ErrVal<R: AbiResult>(R);

/// Invalid [`AbiResult`] value error.
#[derive(Clone, Copy, Debug)]
pub struct InvalidValueError<R: AbiResult> {
    pub value: R,
}

/// Convertible to [`OkVal`].
pub trait AsOkVal<R: AbiResult> {
    /// The ABI value that `self` converts to.
    spec fn ok_abi(&self) -> R;

    /// Converts to an [`OkVal`]; the value must stand for success.
    fn as_ok(&self) -> (r: OkVal<R>)
        requires
            self.ok_abi().is_ok_abi(),
        ensures
            r.value() == self.ok_abi(),
    ;
}

/// Convertible to [`ErrVal`].
pub trait AsErrVal<R: AbiResult> {
    /// The ABI value that `self` converts to.
    spec fn err_abi(&self) -> R;

    /// Converts to an [`ErrVal`]; the value must stand for failure.
    fn as_err(&self) -> (r: ErrVal<R>)
        requires
            !self.err_abi().is_ok_abi(),
        ensures
            r.value() == self.err_abi(),
    ;
}

/// Convertible to an [`AbiResult`].
///
/// A `Result` converts an `Ok` through [`AsOkVal::as_ok`] and an `Err`
/// through [`AsErrVal::as_err`].
pub trait AsAbiResult<R: AbiResult> {
    /// Whether `self` is representable as the ABI type.
    spec fn abi_representable(&self) -> bool;

    /// The ABI value that `self` converts to.
    spec fn abi_value(&self) -> R;

    /// Converts to the [`AbiResult`]; `self` must be representable.
    fn as_abi(&self) -> (r: R)
        requires
            self.abi_representable(),
        ensures
            r == self.abi_value(),
    ;
}

/// Convertible from [`OkVal`].
pub trait TryFromOkVal<R: AbiResult>: Sized {
    /// The value a success value converts to, if it has one.
    spec fn from_ok_abi(ok: R) -> Option<Self>;

    fn try_from_ok(ok: OkVal<R>) -> (r: Result<Self, InvalidValueError<R>>)
        ensures
            match Self::from_ok_abi(ok.value()) {
                Some(v) => r == Ok::<Self, InvalidValueError<R>>(v),
                None => r == Err::<Self, InvalidValueError<R>>(InvalidValueError { value: ok.value() }),
            },
    ;
}

/// Convertible from [`ErrVal`].
pub trait TryFromErrVal<R: AbiResult>: Sized {
    /// The value a failure value converts to, if it has one.
    spec fn from_err_abi(err: R) -> Option<Self>;

    fn try_from_err(err: ErrVal<R>) -> (r: Result<Self, InvalidValueError<R>>)
        ensures
            match Self::from_err_abi(err.value()) {
                Some(v) => r == Ok::<Self, InvalidValueError<R>>(v),
                None => r == Err::<Self, InvalidValueError<R>>(InvalidValueError { value: err.value() }),
            },
    ;
}

/// Convertible from an [`AbiResult`].
pub trait TryFromAbiResult<R: AbiResult>: Sized {
    /// The value an ABI value converts to, if it has one.
    spec fn from_abi(value: R) -> Option<Self>;

    fn try_from_abi(result: R) -> (r: Result<Self, InvalidValueError<R>>)
        ensures
            match Self::from_abi(result) {
                Some(v) => r == Ok::<Self, InvalidValueError<R>>(v),
                None => r == Err::<Self, InvalidValueError<R>>(InvalidValueError { value: result }),
            },
    ;
}

impl<R: AbiResult> Clone for OkVal<R> {
    fn clone(&self) -> (r: Self)
        ensures
            r == *self,
    {
        *self
    }
}

impl<R: AbiResult> Clone for ErrVal<R> {
    fn clone(&self) -> (r: Self)
        ensures
            r == *self,
    {
        *self
    }
}

impl<R: AbiResult> OkVal<R> {
    pub closed spec fn value(self) -> R {
        self.0
    }

    #[verifier::type_invariant]
    closed spec fn inv(self) -> bool {
        self.0.is_ok_abi()
    }

    /// Creates a new [`OkVal`] if the value is non-negative.
    pub fn new(value: R) -> (r: Option<Self>)
        ensures
            r is Some <==> value.is_ok_abi(),
            r is Some ==> r->0.value() == value,
    {
        match check(value) {
            Ok(o) => Some(o),
            Err(_) => None,
        }
    }

    /// Creates a new [`OkVal`] from a value known to be non-negative.
    pub fn new_unchecked(value: R) -> (r: Self)
        requires
            value.is_ok_abi(),
        ensures
            r.value() == value,
    {
        OkVal(value)
    }

    /// The inner value, which stands for success.
    pub fn get(self) -> (r: R)
        ensures
            r == self.value(),
            r.is_ok_abi(),
    {
        proof {
            use_type_invariant(&self);
        }
        self.0
    }
}

impl<R: AbiResult> ErrVal<R> {
    pub closed spec fn value(self) -> R {
        self.0
    }

    #[verifier::type_invariant]
    closed spec fn inv(self) -> bool {
        !self.0.is_ok_abi()
    }

    /// Creates a new [`ErrVal`] if the value is negative.
    pub fn new(value: R) -> (r: Option<Self>)
        ensures
            r is Some <==> !value.is_ok_abi(),
            r is Some ==> r->0.value() == value,
    {
        match check(value) {
            Ok(_) => None,
            Err(e) => Some(e),
        }
    }

    /// Creates a new [`ErrVal`] from a value known to be negative.
    pub fn new_unchecked(value: R) -> (r: Self)
        requires
            !value.is_ok_abi(),
        ensures
            r.value() == value,
    {
        ErrVal(value)
    }

    /// The inner value, which stands for failure.
    pub fn get(self) -> (r: R)
        ensures
            r == self.value(),
            !r.is_ok_abi(),
    {
        proof {
            use_type_invariant(&self);
        }
        self.0
    }
}

impl AbiResult for i8 {
    open spec fn is_ok_abi(self) -> bool {
        self >= 0
    }

    fn is_ok(self) -> (r: bool) {
        self >= 0
    }
}

impl AbiResult for i16 {
    open spec fn is_ok_abi(self) -> bool {
        self >= 0
    }

    fn is_ok(self) -> (r: bool) {
        self >= 0
    }
}

impl AbiResult for i32 {
    open spec fn is_ok_abi(self) -> bool {
        self >= 0
    }

    fn is_ok(self) -> (r: bool) {
        self >= 0
    }
}

impl AbiResult for i64 {
    open spec fn is_ok_abi(self) -> bool {
        self >= 0
    }

    fn is_ok(self) -> (r: bool) {
        self >= 0
    }
}

impl AbiResult for isize {
    open spec fn is_ok_abi(self) -> bool {
        self >= 0
    }

    fn is_ok(self) -> (r: bool) {
        self >= 0
    }
}

impl<R, T, E> TryFromAbiResult<R> for Result<T, E> where
    R: AbiResult,
    T: TryFromOkVal<R>,
    E: TryFromErrVal<R>,
 {
    open spec fn from_abi(value: R) -> Option<Self> {
        if value.is_ok_abi() {
            match T::from_ok_abi(value) {
                Some(t) => Some(Ok(t)),
                None => None,
            }
        } else {
            match E::from_err_abi(value) {
                Some(e) => Some(Err(e)),
                None => None,
            }
        }
    }

    fn try_from_abi(value: R) -> (r: Result<Self, InvalidValueError<R>>) {
        match check(value) {
            Ok(ok) => match T::try_from_ok(ok) {
                Ok(t) => Ok(Ok(t)),
                Err(e) => Err(e),
            },
            Err(err) => match E::try_from_err(err) {
                Ok(e) => Ok(Err(e)),
                Err(e) => Err(e),
            },
        }
    }
}

impl<R, T, E> AsAbiResult<R> for Result<T, E> where
    R: AbiResult,
    T: AsOkVal<R>,
    E: AsErrVal<R>,
 {
    open spec fn abi_representable(&self) -> bool {
        match self {
            Ok(t) => t.ok_abi().is_ok_abi(),
            Err(e) => !e.err_abi().is_ok_abi(),
        }
    }

    open spec fn abi_value(&self) -> R {
        match self {
            Ok(t) => t.ok_abi(),
            Err(e) => e.err_abi(),
        }
    }

    fn as_abi(&self) -> (r: R) {
        match self {
            Ok(t) => t.as_ok().get(),
            Err(e) => e.as_err().get(),
        }
    }
}

impl<R: AbiResult> AsOkVal<R> for R {
    open spec fn ok_abi(&self) -> R {
        *self
    }

    fn as_ok(&self) -> (r: OkVal<R>) {
        OkVal::new_unchecked(*self)
    }
}

impl<R: AbiResult> TryFromOkVal<R> for R {
    open spec fn from_ok_abi(ok: R) -> Option<Self> {
        Some(ok)
    }

    fn try_from_ok(ok: OkVal<R>) -> (r: Result<Self, InvalidValueError<R>>) {
        Ok(ok.get())
    }
}

impl<R: AbiResult> AsErrVal<R> for R {
    open spec fn err_abi(&self) -> R {
        *self
    }

    fn as_err(&self) -> (r: ErrVal<R>) {
        ErrVal::new_unchecked(*self)
    }
}

impl<R: AbiResult> TryFromErrVal<R> for R {
    open spec fn from_err_abi(err: R) -> Option<Self> {
        Some(err)
    }

    fn try_from_err(err: ErrVal<R>) -> (r: Result<Self, InvalidValueError<R>>) {
        Ok(err.get())
    }
}


impl AsOkVal<i8> for u8 {
    open spec fn ok_abi(&self) -> i8 {
        *self as i8
    }

    fn as_ok(&self) -> (r: OkVal<i8>) {
        (*self as i8).as_ok()
    }
}

impl TryFromOkVal<i8> for u8 {
    open spec fn from_ok_abi(ok: i8) -> Option<Self> {
        Some(ok as u8)
    }

    fn try_from_ok(ok: OkVal<i8>) -> (r: Result<Self, InvalidValueError<i8>>) {
        Ok(ok.get() as u8)
    }
}

impl AsOkVal<i16> for u16 {
    open spec fn ok_abi(&self) -> i16 {
        *self as i16
    }

    fn as_ok(&self) -> (r: OkVal<i16>) {
        (*self as i16).as_ok()
    }
}

impl TryFromOkVal<i16> for u16 {
    open spec fn from_ok_abi(ok: i16) -> Option<Self> {
        Some(ok as u16)
    }

    fn try_from_ok(ok: OkVal<i16>) -> (r: Result<Self, InvalidValueError<i16>>) {
        Ok(ok.get() as u16)
    }
}

impl AsOkVal<i32> for u32 {
    open spec fn ok_abi(&self) -> i32 {
        *self as i32
    }

    fn as_ok(&self) -> (r: OkVal<i32>) {
        (*self as i32).as_ok()
    }
}

impl TryFromOkVal<i32> for u32 {
    open spec fn from_ok_abi(ok: i32) -> Option<Self> {
        Some(ok as u32)
    }

    fn try_from_ok(ok: OkVal<i32>) -> (r: Result<Self, InvalidValueError<i32>>) {
        Ok(ok.get() as u32)
    }
}

impl AsOkVal<i64> for u64 {
    open spec fn ok_abi(&self) -> i64 {
        *self as i64
    }

    fn as_ok(&self) -> (r: OkVal<i64>) {
        (*self as i64).as_ok()
    }
}

impl TryFromOkVal<i64> for u64 {
    open spec fn from_ok_abi(ok: i64) -> Option<Self> {
        Some(ok as u64)
    }

    fn try_from_ok(ok: OkVal<i64>) -> (r: Result<Self, InvalidValueError<i64>>) {
        Ok(ok.get() as u64)
    }
}

impl AsOkVal<isize> for usize {
    open spec fn ok_abi(&self) -> isize {
        *self as isize
    }

    fn as_ok(&self) -> (r: OkVal<isize>) {
        (*self as isize).as_ok()
    }
}

impl TryFromOkVal<isize> for usize {
    open spec fn from_ok_abi(ok: isize) -> Option<Self> {
        Some(ok as usize)
    }

    fn try_from_ok(ok: OkVal<isize>) -> (r: Result<Self, InvalidValueError<isize>>) {
        Ok(ok.get() as usize)
    }
}

} // verus!
