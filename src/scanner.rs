//! The scanner: a buffer of loaded input, a cursor into it, and the reads
//! that take tokens from it.
use vstd::prelude::*;
use crate::parse::Parseable;
use crate::tokens::{line_content, line_end, next_token, separator, skip_separators, skip_word};

verus! {

/// Relies on `String::push`: the character is appended at the end.
pub assume_specification[ String::push ](s: &mut String, ch: char)
    ensures
        final(s)@ == old(s)@.push(ch),
;

/// Why a read could not be served.
#[derive(Debug, Clone, Copy, PartialEq, Eq, Structural)]
pub enum ScanError {
    /// The loaded input holds no complete token: more lines are needed.
    Exhausted,
    /// A token does not have the form of the requested type.
    Conversion,
}

/// A scanner over lines handed to it one at a time.
///
/// Every read either succeeds or leaves the unread input as it was.
pub struct AsciiScanner {
    buffer: Vec<char>,
    ptr: usize,
}

impl Default for AsciiScanner {
    /// A scanner with no input loaded.
    fn default() -> (r: Self)
        ensures
            r.wf(),
            r@ == Seq::<char>::empty(),
    {
        AsciiScanner::new()
    }
}

impl View for AsciiScanner {
    type V = Seq<char>;

    /// The unread input.
    closed spec fn view(&self) -> Seq<char> {
        self.buffer@.skip(self.ptr as int)
    }
}

impl AsciiScanner {
    /// The cursor lies within the buffer.
    pub closed spec fn wf(&self) -> bool {
        self.ptr <= self.buffer.len()
    }

    /// The input loaded so far and kept, read or not.
    pub closed spec fn loaded(&self) -> Seq<char> {
        self.buffer@
    }

    /// A scanner with no input loaded.
    pub fn new() -> (r: Self)
        ensures
            r.wf(),
            r@ == Seq::<char>::empty(),
    {
        let r = AsciiScanner { buffer: Vec::new(), ptr: 0 };
        assert(r@ =~= Seq::<char>::empty());
        r
    }

    /// Loads one line of input after what is unread. Input already read is
    /// dropped from the buffer.
    pub fn push_line(&mut self, line: &str)
        requires
            old(self).wf(),
        ensures
            final(self).wf(),
            final(self)@ == old(self)@ + line_content(line@),
    {
        let ghost unread = self@;
        let mut kept: Vec<char> = Vec::new();
        let n = self.buffer.len();
        let mut i: usize = self.ptr;
        while i < n
            invariant
                self.ptr <= i <= n,
                n == self.buffer.len(),
                unread == self.buffer@.skip(self.ptr as int),
                kept@ == self.buffer@.subrange(self.ptr as int, i as int),
            decreases n - i,
        {
            kept.push(self.buffer[i]);
            i += 1;
        }
        assert(kept@ =~= unread);
        let ghost l = line@;
        let mut ended = false;
        assert(l.skip(0) =~= l);
        for c in it: line.chars()
            invariant
                it.seq() == l,
                !ended ==> kept@ + line_content(l.skip(it.index() as int)) == unread
                    + line_content(l),
                ended ==> kept@ == unread + line_content(l),
        {
            if !ended {
                let ghost j = it.index() as int;
                assert(l.skip(j).drop_first() =~= l.skip(j + 1));
                if line_end(c) {
                    kept.push('\n');
                    ended = true;
                    assert(kept@ =~= unread + line_content(l));
                } else {
                    kept.push(c);
                    assert(kept@ + line_content(l.skip(j + 1)) =~= unread + line_content(l));
                }
            }
        }
        proof {
            if !ended {
                assert(l.skip(l.len() as int) =~= Seq::<char>::empty());
            }
        }
        self.buffer = kept;
        self.ptr = 0;
        assert(self@ =~= self.buffer@);
    }

    /// Takes the next complete token, leaving the cursor on the separator
    /// that ends it. Where the loaded input holds no complete token, nothing
    /// moves.
    pub(crate) fn take_token(&mut self) -> (r: Result<String, ScanError>)
        requires
            old(self).wf(),
        ensures
            final(self).wf(),
            final(self).loaded() == old(self).loaded(),
            match next_token(old(self)@) {
                Some((t, rest)) => r matches Ok(x) && x@ == t && final(self)@ == rest,
                None => r == Err::<String, ScanError>(ScanError::Exhausted) && final(self)@
                    == old(self)@,
            },
    {
        let ghost s = self@;
        let n = self.buffer.len();
        let p = self.ptr;
        let mut i: usize = p;
        while i < n && separator(self.buffer[i])
            invariant
                p <= i <= n,
                n == self.buffer.len(),
                p == self.ptr,
                s == self.buffer@.skip(p as int),
                skip_separators(s, (i - p) as int) == skip_separators(s, 0),
            decreases n - i,
        {
            i += 1;
        }
        let start = i;
        let mut token = String::new();
        while i < n && !separator(self.buffer[i])
            invariant
                start <= i <= n,
                p <= start,
                n == self.buffer.len(),
                p == self.ptr,
                s == self.buffer@.skip(p as int),
                skip_separators(s, 0) == (start - p) as int,
                skip_word(s, (i - p) as int) == skip_word(s, (start - p) as int),
                token@ == s.subrange((start - p) as int, (i - p) as int),
            decreases n - i,
        {
            token.push(self.buffer[i]);
            i += 1;
            assert(token@ =~= s.subrange((start - p) as int, (i - p) as int));
        }
        if start < i && i < n {
            self.ptr = i;
            assert(self@ =~= s.skip((i - p) as int));
            Ok(token)
        } else {
            Err(ScanError::Exhausted)
        }
    }
}

/// Reading `n` values of shape `T` one after another from `s`: the values
/// in the order read and the input left after them, or the first error.
pub open spec fn read_many<T: Parseable>(s: Seq<char>, n: nat) -> Result<
    (Seq<<T as DeepView>::V>, Seq<char>),
    ScanError,
>
    decreases n,
{
    if n == 0 {
        Ok((Seq::empty(), s))
    } else {
        match read_many::<T>(s, (n - 1) as nat) {
            Err(e) => Err(e),
            Ok((vs, s1)) => match T::spec_read(s1) {
                Err(e) => Err(e),
                Ok((v, s2)) => Ok((vs.push(v), s2)),
            },
        }
    }
}

/// Once reading `n` values fails, reading more fails with the same error.
pub proof fn lemma_read_many_err_stays<T: Parseable>(s: Seq<char>, n: nat, m: nat)
    requires
        n <= m,
        read_many::<T>(s, n) is Err,
    ensures
        read_many::<T>(s, m) == read_many::<T>(s, n),
    decreases m - n,
{
    if n < m {
        lemma_read_many_err_stays::<T>(s, n, (m - 1) as nat);
    }
}

/// The read operations offered to callers.
pub trait Scanner: Sized {
    /// The unread input.
    spec fn remaining(&self) -> Seq<char>;

    /// The scanner's internal state is consistent.
    spec fn well_formed(&self) -> bool;

    /// Reads the next token as raw text.
    fn read_token(&mut self) -> (r: Result<String, ScanError>)
        requires
            old(self).well_formed(),
        ensures
            final(self).well_formed(),
            match next_token(old(self).remaining()) {
                Some((t, rest)) => r matches Ok(x) && x@ == t && final(self).remaining() == rest,
                None => r == Err::<String, ScanError>(ScanError::Exhausted)
                    && final(self).remaining() == old(self).remaining(),
            },
    ;

    /// Reads one value of shape `T`; on an error nothing is consumed.
    fn read<T: Parseable>(&mut self) -> (r: Result<T, ScanError>)
        requires
            old(self).well_formed(),
        ensures
            final(self).well_formed(),
            match T::spec_read(old(self).remaining()) {
                Ok((v, rest)) => r matches Ok(x) && x.deep_view() == v && final(self).remaining()
                    == rest,
                Err(e) => r == Err::<T, ScanError>(e) && final(self).remaining() == old(
                    self,
                ).remaining(),
            },
    ;

    /// Reads `cnt` values of shape `T`, in order; on an error nothing is
    /// consumed.
    fn read_vec<T: Parseable>(&mut self, cnt: usize) -> (r: Result<Vec<T>, ScanError>)
        requires
            old(self).well_formed(),
        ensures
            final(self).well_formed(),
            match read_many::<T>(old(self).remaining(), cnt as nat) {
                Ok((vs, rest)) => r matches Ok(x) && x.deep_view() == vs && final(self).remaining()
                    == rest,
                Err(e) => r == Err::<Vec<T>, ScanError>(e) && final(self).remaining() == old(
                    self,
                ).remaining(),
            },
    ;

    /// A lazy, unbounded sequence of reads of shape `T`: each pull performs
    /// exactly one read.
    fn iter<T: Parseable>(&mut self) -> (r: ScannerIter<'_, T, Self>)
        ensures
            r.source() == *old(self),
    {
        ScannerIter { sc: self, phantom: core::marker::PhantomData }
    }
}

/// Pulls one value of shape `T` from a scanner per call of `next`.
pub struct ScannerIter<'a, T, S> {
    sc: &'a mut S,
    phantom: core::marker::PhantomData<T>,
}

impl<'a, T, S> ScannerIter<'a, T, S> {
    /// The scanner that the values are read from.
    pub closed spec fn source(&self) -> S {
        *self.sc
    }
}

impl<'a, T: Parseable, S: Scanner> ScannerIter<'a, T, S> {
    /// Reads the next value, exactly as the scanner's `read` does.
    pub fn next(&mut self) -> (r: Result<T, ScanError>)
        requires
            old(self).source().well_formed(),
        ensures
            final(self).source().well_formed(),
            match T::spec_read(old(self).source().remaining()) {
                Ok((v, rest)) => r matches Ok(x) && x.deep_view() == v
                    && final(self).source().remaining() == rest,
                Err(e) => r == Err::<T, ScanError>(e) && final(self).source().remaining() == old(
                    self,
                ).source().remaining(),
            },
    {
        self.sc.read::<T>()
    }
}

impl Scanner for AsciiScanner {
    open spec fn remaining(&self) -> Seq<char> {
        self@
    }

    open spec fn well_formed(&self) -> bool {
        self.wf()
    }

    fn read_token(&mut self) -> (r: Result<String, ScanError>) {
        self.take_token()
    }

    fn read<T: Parseable>(&mut self) -> (r: Result<T, ScanError>) {
        let saved = self.ptr;
        let r = T::parse(self);
        if let Err(e) = r {
            self.ptr = saved;
            return Err(e);
        }
        r
    }

    fn read_vec<T: Parseable>(&mut self, cnt: usize) -> (r: Result<Vec<T>, ScanError>) {
        let ghost s = self@;
        let saved = self.ptr;
        let mut out: Vec<T> = Vec::new();
        let mut k: usize = 0;
        assert(out.deep_view() =~= Seq::<<T as DeepView>::V>::empty());
        while k < cnt
            invariant
                k <= cnt,
                self.wf(),
                saved <= self.buffer.len(),
                s == self.buffer@.skip(saved as int),
                s == old(self)@,
                read_many::<T>(s, k as nat) == Ok::<_, ScanError>((out.deep_view(), self@)),
            decreases cnt - k,
        {
            let ghost before = self@;
            let ghost vs = out.deep_view();
            match T::parse(self) {
                Ok(v) => {
                    out.push(v);
                    assert(out.deep_view() =~= vs.push(v.deep_view()));
                },
                Err(e) => {
                    assert(read_many::<T>(s, (k + 1) as nat) == Err::<
                        (Seq<<T as DeepView>::V>, Seq<char>),
                        ScanError,
                    >(e));
                    proof {
                        lemma_read_many_err_stays::<T>(s, (k + 1) as nat, cnt as nat);
                    }
                    self.ptr = saved;
                    assert(self@ =~= s);
                    return Err(e);
                },
            }
            k += 1;
        }
        Ok(out)
    }
}

} // verus!
