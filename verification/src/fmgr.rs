//! The frame that the server builds for each call of an extension function,
//! and the view of it that the function is given.

use libc::c_int;
use vstd::prelude::*;

use crate::datum::Datum;

verus! {

/// The most arguments that a function can be called with: the number of
/// argument slots in every call frame.
pub const FUNC_MAX_ARGS: c_int = 100;

/// What the server knows of a function before it calls it. A frame refers to
/// this record by its address.
pub struct FmgrInfo {
    /// Address of the function to call.
    pub fn_addr: usize,
    /// Identifier of the function in the catalog.
    pub fn_oid: u32,
    /// Number of arguments the function is declared with.
    pub fn_nargs: u16,
    /// The function is not called when an argument is null.
    pub fn_strict: bool,
    /// The function returns a set.
    pub fn_retset: bool,
    /// Whether call statistics are collected.
    pub fn_stats: u8,
    /// Address of space that the function may use between calls.
    pub fn_extra: usize,
    /// Address of the memory context that `fn_extra` lives in.
    pub fn_mcxt: usize,
    /// Address of the expression tree of the call, or null.
    pub fn_expr: usize,
}

/// The call frame as the server lays it out: who is called, in which
/// context, and `FUNC_MAX_ARGS` slots for arguments and their null flags, of
/// which the first `nargs` are in use.
pub struct FunctionCallInfoData {
    /// Address of the `FmgrInfo` of the called function.
    pub fl_info: usize,
    /// Address of the node that describes the calling context, or null.
    pub context: usize,
    /// Address of the node through which extra results are passed, or null.
    pub result_info: usize,
    /// The collation that the function is to use.
    pub fn_collation: u32,
    /// The function's result is null.
    pub is_null: bool,
    /// The number of arguments passed.
    pub nargs: u16,
    /// The argument words.
    pub arg: [Datum; 100],
    /// For each argument, whether it is null. A null argument's word means
    /// nothing.
    pub argnull: [bool; 100],
}

impl FunctionCallInfoData {
    /// The frame passes no more arguments than it has slots for.
    pub open spec fn valid(&self) -> bool {
        self.nargs <= FUNC_MAX_ARGS
    }

    /// The arguments that the frame passes, in order: `None` for a null
    /// argument, whatever its slot holds, and the word otherwise.
    pub open spec fn arguments(&self) -> Seq<Option<Datum>> {
        Seq::new(
            self.nargs as nat,
            |i: int|
                if self.argnull@[i] {
                    None
                } else {
                    Some(self.arg@[i])
                },
        )
    }

    /// Builds the frame of a call with the given arguments, `None` standing
    /// for a null argument. There is a frame exactly when the arguments fit
    /// the slots. The result is not null to begin with, and the slots that
    /// are not in use are marked null.
    pub fn new(fl_info: usize, fn_collation: u32, args: &Vec<Option<Datum>>) -> (r: Option<
        FunctionCallInfoData,
    >)
        ensures
            r is Some <==> args@.len() <= FUNC_MAX_ARGS,
            r is Some ==> {
                let f = r->0;
                &&& f.valid()
                &&& f.arguments() == args@
                &&& f.fl_info == fl_info
                &&& f.fn_collation == fn_collation
                &&& f.context == 0
                &&& f.result_info == 0
                &&& !f.is_null
                &&& forall|i: int| args@.len() <= i < FUNC_MAX_ARGS ==> f.argnull@[i]
            },
    {
        if args.len() > 100 {
            return None;
        }
        let mut arg: [Datum; 100] = [Datum::new(0); 100];
        let mut argnull: [bool; 100] = [true; 100];
        let mut i: usize = 0;
        while i < args.len()
            invariant
                i <= args@.len() <= 100,
                forall|j: int| i <= j < 100 ==> argnull@[j],
                forall|j: int|
                    0 <= j < i ==> (if argnull@[j] {
                        None
                    } else {
                        Some(arg@[j])
                    }) == #[trigger] args@[j],
            decreases args@.len() - i,
        {
            match args[i] {
                Some(d) => {
                    arg[i] = d;
                    argnull[i] = false;
                },
                None => {},
            }
            i += 1;
        }
        let f = FunctionCallInfoData {
            fl_info,
            context: 0,
            result_info: 0,
            fn_collation,
            is_null: false,
            nargs: args.len() as u16,
            arg,
            argnull,
        };
        assert(f.arguments() =~= args@);
        Some(f)
    }
}

/// The view of a call frame that an extension function works with, for the
/// time of the call: it reads the arguments that were passed and may mark
/// the result null. Everything else in the frame is the server's, and the
/// view cannot touch it.
pub struct FunctionCallInfo<'a> {
    ptr: &'a FunctionCallInfoData,
    is_null: bool,
}

impl<'a> FunctionCallInfo<'a> {
    /// The frame as it stands under the view: the server's frame, with the
    /// null mark that the function has set.
    pub closed spec fn frame(&self) -> FunctionCallInfoData {
        FunctionCallInfoData { is_null: self.is_null, ..*self.ptr }
    }

    #[verifier::type_invariant]
    spec fn wf(&self) -> bool {
        self.ptr.valid()
    }

    /// Opens a view on `frame`. A frame that claims more arguments than it
    /// has slots is refused.
    pub fn new(frame: &'a FunctionCallInfoData) -> (r: Option<FunctionCallInfo<'a>>)
        ensures
            r is Some <==> frame.valid(),
            r is Some ==> r->0.frame() == *frame,
    {
        if frame.nargs <= 100 {
            Some(FunctionCallInfo { ptr: frame, is_null: frame.is_null })
        } else {
            None
        }
    }

    /// The number of arguments passed: never more than `FUNC_MAX_ARGS`.
    pub fn nargs(&self) -> (n: u16)
        ensures
            n == self.frame().nargs,
            n <= FUNC_MAX_ARGS,
    {
        proof {
            use_type_invariant(self);
        }
        self.ptr.nargs
    }

    /// The word in argument slot `i`, for a slot that is in use; nothing for
    /// any other `i`.
    pub fn arg(&self, i: usize) -> (r: Option<Datum>)
        ensures
            r is Some <==> i < self.frame().nargs,
            r is Some ==> r->0 == self.frame().arg@[i as int],
    {
        proof {
            use_type_invariant(self);
        }
        if i < self.ptr.nargs as usize {
            Some(self.ptr.arg[i])
        } else {
            None
        }
    }

    /// Whether argument `i` is null, for a slot that is in use; nothing for
    /// any other `i`.
    pub fn arg_is_null(&self, i: usize) -> (r: Option<bool>)
        ensures
            r is Some <==> i < self.frame().nargs,
            r is Some ==> r->0 == self.frame().argnull@[i as int],
    {
        proof {
            use_type_invariant(self);
        }
        if i < self.ptr.nargs as usize {
            Some(self.ptr.argnull[i])
        } else {
            None
        }
    }

    /// The arguments passed, in order, `None` standing for a null argument.
    pub fn args(&self) -> (r: Vec<Option<Datum>>)
        ensures
            r@ == self.frame().arguments(),
            r@.len() == self.frame().nargs,
    {
        proof {
            use_type_invariant(self);
        }
        let n: usize = self.ptr.nargs as usize;
        let mut out: Vec<Option<Datum>> = Vec::new();
        let mut i: usize = 0;
        while i < n
            invariant
                i <= n <= 100,
                n == self.frame().nargs,
                out@.len() == i,
                forall|j: int| 0 <= j < i ==> out@[j] == self.frame().arguments()[j],
            decreases n - i,
        {
            if self.ptr.argnull[i] {
                out.push(None);
            } else {
                out.push(Some(self.ptr.arg[i]));
            }
            i += 1;
        }
        assert(out@ =~= self.frame().arguments());
        out
    }

    /// Whether the result is marked null.
    pub fn is_null(&self) -> (b: bool)
        ensures
            b == self.frame().is_null,
    {
        self.is_null
    }

    /// Marks the result null, or not null. Nothing else in the frame changes.
    pub fn set_null(&mut self, null: bool)
        ensures
            final(self).frame() == (FunctionCallInfoData { is_null: null, ..old(self).frame() }),
    {
        proof {
            use_type_invariant(&*self);
        }
        self.is_null = null;
    }
}

/// A frame that passes no argument, or as many as there are slots, is valid,
/// and so is every count between.
pub proof fn lemma_valid_counts(frame: FunctionCallInfoData)
    ensures
        frame.valid() <==> frame.nargs <= 100,
        frame.nargs == 0 ==> frame.valid() && frame.arguments().len() == 0,
        frame.nargs == 100 ==> frame.valid() && frame.arguments().len() == 100,
{
}

} // verus!
