use vstd::prelude::*;

verus! {

/// Evaluation type: the source is a module.
pub const EVAL_TYPE_MODULE: i32 = 1;

/// Skip a first line that begins with `#!`.
pub const EVAL_FLAG_SHEBANG: i32 = 4;

/// Parse in strict mode.
pub const EVAL_FLAG_STRICT: i32 = 8;

/// Leave debug and position information out of the compiled code.
pub const EVAL_FLAG_STRIP: i32 = 16;

/// The switches of one evaluation.
#[derive(Clone, Copy, Debug, PartialEq, Eq, Structural)]
pub struct EvalOptions {
    pub shebang: bool,
    pub strict: bool,
    pub strip: bool,
}

/// The engine flags for evaluating a module with the given switches.
pub open spec fn spec_eval_flags(o: EvalOptions) -> i32 {
    (EVAL_TYPE_MODULE + (if o.shebang {
        EVAL_FLAG_SHEBANG
    } else {
        0
    }) + (if o.strict {
        EVAL_FLAG_STRICT
    } else {
        0
    }) + (if o.strip {
        EVAL_FLAG_STRIP
    } else {
        0
    })) as i32
}

impl EvalOptions {
    pub fn new(shebang: bool, strict: bool, strip: bool) -> (r: EvalOptions)
        ensures
            r == (EvalOptions { shebang, strict, strip }),
    {
        EvalOptions { shebang, strict, strip }
    }

    /// The engine flags for these switches; the source is always evaluated
    /// as a module.
    pub fn flags(&self) -> (r: i32)
        ensures
            r == spec_eval_flags(*self),
            r & EVAL_TYPE_MODULE == EVAL_TYPE_MODULE,
            (r & EVAL_FLAG_SHEBANG != 0) == self.shebang,
            (r & EVAL_FLAG_STRICT != 0) == self.strict,
            (r & EVAL_FLAG_STRIP != 0) == self.strip,
    {
        let mut f: i32 = EVAL_TYPE_MODULE;
        if self.shebang {
            f = f + EVAL_FLAG_SHEBANG;
        }
        if self.strict {
            f = f + EVAL_FLAG_STRICT;
        }
        if self.strip {
            f = f + EVAL_FLAG_STRIP;
        }
        let a: i32 = if self.shebang { 1 } else { 0 };
        let b: i32 = if self.strict { 1 } else { 0 };
        let c: i32 = if self.strip { 1 } else { 0 };
        proof {
            lemma_flag_bits(a, b, c);
        }
        f
    }
}

proof fn lemma_flag_bits(a: i32, b: i32, c: i32)
    requires
        0 <= a <= 1,
        0 <= b <= 1,
        0 <= c <= 1,
    ensures
        ({
            let f = (1 + 4 * a + 8 * b + 16 * c) as i32;
            &&& f & 1 == 1
            &&& (f & 4 != 0) == (a == 1)
            &&& (f & 8 != 0) == (b == 1)
            &&& (f & 16 != 0) == (c == 1)
        }),
{
    assert(0 <= a <= 1 && 0 <= b <= 1 && 0 <= c <= 1 ==> ({
        let f = (1 + 4 * a + 8 * b + 16 * c) as i32;
        &&& f & 1 == 1
        &&& (f & 4 != 0) == (a == 1)
        &&& (f & 8 != 0) == (b == 1)
        &&& (f & 16 != 0) == (c == 1)
    })) by (bit_vector);
}

/// How a context handle relates to the engine context it names.
#[derive(Clone, Copy, Debug, PartialEq, Eq, Structural)]
pub enum Ownership {
    /// Created by the host: it keeps its runtime alive and destroys the
    /// engine context on its last release.
    Owned,
    /// Lent by the engine for one native call: it never destroys anything.
    Borrowed,
}

impl Ownership {
    /// Whether releasing the last handle of this kind destroys the engine
    /// context.
    pub fn tears_down(&self) -> (r: bool)
        ensures
            r == (*self is Owned),
    {
        match self {
            Ownership::Owned => true,
            Ownership::Borrowed => false,
        }
    }
}

} // verus!
