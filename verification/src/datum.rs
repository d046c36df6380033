//! The server's universal value word, and the memory context that holds the
//! buffers which pointer-valued words refer to.

use core::marker::PhantomData;
use vstd::prelude::*;
use vstd::string::*;

use crate::varlena::{PgConvert, Varlena, MAX_PAYLOAD};

verus! {

/// A wrapper around a server `Datum`: a pointer-sized unsigned word that holds
/// either a small value itself or the address of a value in a memory context.
/// Which of the two it is follows from the type expected where it is used.
#[derive(Clone, Copy, Debug, PartialEq, Eq, Structural)]
pub struct Datum {
    val: usize,
}

impl View for Datum {
    type V = usize;

    closed spec fn view(&self) -> usize {
        self.val
    }
}

impl Datum {
    /// The datum that holds the word `val`.
    pub fn new(val: usize) -> (d: Datum)
        ensures
            d@ == val,
    {
        Datum { val }
    }

    /// The word that the datum holds.
    pub fn value(&self) -> (val: usize)
        ensures
            val == self@,
    {
        self.val
    }

    /// Stores `value` as a plain variable-length buffer in `ctx` and returns
    /// the datum that refers to it. The buffer lives until the context is
    /// dropped or the datum is freed in it.
    pub fn new_str(value: &str, ctx: &mut MemoryContext) -> (d: Datum)
        requires
            value.spec_bytes().len() <= MAX_PAYLOAD,
        ensures
            d@ != 0,
            !old(ctx)@.contains_key(d@),
            final(ctx)@.contains_key(d@),
            final(ctx)@[d@].holds(value.spec_bytes()),
            final(ctx)@[d@].decodable(),
            final(ctx)@[d@].decoded() == value@,
            final(ctx)@ == old(ctx)@.insert(d@, final(ctx)@[d@]),
    {
        ctx.palloc(Varlena::from_str(value))
    }
}

/// Two datums are the same exactly when they hold the same word.
pub proof fn lemma_datum_by_word(a: Datum, b: Datum)
    ensures
        a == b <==> a@ == b@,
{
}

/// A datum handed out for the time of one call.
pub struct DatumPtr<'a> {
    ptr: Datum,
    marker: PhantomData<&'a ()>,
}

impl<'a> DatumPtr<'a> {
    /// Ties `datum` to the lifetime `'a`.
    pub fn new(datum: Datum) -> (p: DatumPtr<'a>)
        ensures
            p.datum() == datum,
    {
        DatumPtr { ptr: datum, marker: PhantomData }
    }

    /// The datum behind the pointer.
    pub closed spec fn datum(&self) -> Datum {
        self.ptr
    }

    /// Reads the datum behind the pointer.
    pub fn get(&self) -> (d: Datum)
        ensures
            d == self.datum(),
    {
        self.ptr
    }
}

/// The buffers allocated for a call, found by the word of the datum that
/// refers to them. Dropping the context releases every buffer in it, so a
/// function that fails halfway leaks nothing.
pub struct MemoryContext {
    chunks: Vec<Option<Varlena>>,
}

impl View for MemoryContext {
    type V = Map<usize, Varlena>;

    closed spec fn view(&self) -> Map<usize, Varlena> {
        Map::new(
            |a: usize| 0 < a < self.chunks@.len() && self.chunks@[a as int] is Some,
            |a: usize| self.chunks@[a as int]->0,
        )
    }
}

impl MemoryContext {
    /// A context that holds no buffer.
    pub fn new() -> (ctx: MemoryContext)
        ensures
            ctx@ == Map::<usize, Varlena>::empty(),
    {
        let ctx = MemoryContext { chunks: Vec::new() };
        assert(ctx@ =~= Map::<usize, Varlena>::empty());
        ctx
    }

    /// Takes `buf` into the context and returns the datum that refers to it:
    /// a word that is not null and refers to no other buffer.
    pub fn palloc(&mut self, buf: Varlena) -> (d: Datum)
        ensures
            d@ != 0,
            !old(self)@.contains_key(d@),
            final(self)@ == old(self)@.insert(d@, buf),
    {
        if self.chunks.len() == 0 {
            // The null word refers to nothing: its slot stays empty.
            self.chunks.push(None);
        }
        let at: usize = self.chunks.len();
        self.chunks.push(Some(buf));
        assert(self@ =~= old(self)@.insert(at, buf));
        Datum { val: at }
    }

    /// The buffer that `d` refers to, if it refers to one.
    pub fn get(&self, d: &Datum) -> (r: Option<&Varlena>)
        ensures
            r is Some <==> self@.contains_key(d@),
            r is Some ==> *r->0 == self@[d@],
    {
        if 0 < d.val && d.val < self.chunks.len() {
            self.chunks[d.val].as_ref()
        } else {
            None
        }
    }

    /// Releases the buffer that `d` refers to and hands it to the caller.
    /// A datum that refers to no buffer releases nothing.
    pub fn pfree(&mut self, d: &Datum) -> (r: Option<Varlena>)
        ensures
            r is Some <==> old(self)@.contains_key(d@),
            r is Some ==> r->0 == old(self)@[d@],
            final(self)@ == old(self)@.remove(d@),
    {
        if 0 < d.val && d.val < self.chunks.len() {
            let mut taken: Option<Varlena> = None;
            core::mem::swap(&mut self.chunks[d.val], &mut taken);
            assert(self@ =~= old(self)@.remove(d@));
            taken
        } else {
            assert(self@ =~= old(self)@.remove(d@));
            None
        }
    }
}

} // verus!
