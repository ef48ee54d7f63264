//! Plain-value forms of WebAssembly values and types, the argument
//! validation every host shim performs, and the registration rules for host
//! functions.
//!
//! Floating-point values are carried as their raw bit patterns: the crate
//! never computes with them, it only moves them between the guest and the
//! embedder.

use vstd::prelude::*;

use crate::errno::Errno;
use crate::error::{AddFuncError, CoreError, CoreExecutionError};

verus! {

/// A WebAssembly value crossing the host boundary.
#[derive(Clone, Copy, Debug, PartialEq, Eq, Structural)]
pub enum WasmVal {
    /// A 32-bit integer.
    I32(i32),
    /// A 64-bit integer.
    I64(i64),
    /// A 32-bit float, as its raw bits.
    F32Bits(u32),
    /// A 64-bit float, as its raw bits.
    F64Bits(u64),
    /// A 128-bit vector value.
    V128(i128),
    /// No value, or an unrecognized engine value.
    Null,
}

/// A WebAssembly value type.
#[derive(Clone, Copy, Debug, PartialEq, Eq, Structural)]
pub enum ValType {
    /// 32-bit integer.
    I32,
    /// 64-bit integer.
    I64,
    /// 32-bit float.
    F32,
    /// 64-bit float.
    F64,
    /// 128-bit vector.
    V128,
    /// No value.
    Null,
}

/// The type a value inhabits.
pub open spec fn val_type_of(v: WasmVal) -> ValType {
    match v {
        WasmVal::I32(_) => ValType::I32,
        WasmVal::I64(_) => ValType::I64,
        WasmVal::F32Bits(_) => ValType::F32,
        WasmVal::F64Bits(_) => ValType::F64,
        WasmVal::V128(_) => ValType::V128,
        WasmVal::Null => ValType::Null,
    }
}

impl WasmVal {
    /// The type this value inhabits.
    pub fn val_type(&self) -> (r: ValType)
        ensures
            r == val_type_of(*self),
    {
        match self {
            WasmVal::I32(_) => ValType::I32,
            WasmVal::I64(_) => ValType::I64,
            WasmVal::F32Bits(_) => ValType::F32,
            WasmVal::F64Bits(_) => ValType::F64,
            WasmVal::V128(_) => ValType::V128,
            WasmVal::Null => ValType::Null,
        }
    }
}

/// The single WASI-style return every shim produces: the error code as one
/// 32-bit value, zero on success.
pub fn to_wasm_return(r: Result<(), Errno>) -> (v: Vec<WasmVal>)
    ensures
        v@.len() == 1,
        v@[0] == WasmVal::I32(
            (match r {
                Ok(_) => 0,
                Err(e) => e.code_spec() as i32,
            }),
        ),
{
    let code: u32 = match r {
        Ok(_) => 0,
        Err(e) => e.code(),
    };
    let mut v: Vec<WasmVal> = Vec::new();
    v.push(WasmVal::I32(code as i32));
    v
}

/// The error every shim raises when the engine hands it arguments that do
/// not match the import's declared type.
pub fn func_type_miss_match_error() -> (r: CoreError)
    ensures
        r == CoreError::Execution(CoreExecutionError::FuncTypeMismatch),
{
    CoreError::Execution(CoreExecutionError::FuncTypeMismatch)
}

/// Whether a prefix of the arguments matches a shape, position by position.
pub open spec fn args_match(args: Seq<WasmVal>, shape: Seq<ValType>) -> bool {
    args.len() >= shape.len() && (forall|k: int|
        0 <= k < shape.len() ==> val_type_of(#[trigger] args[k]) == shape[k])
}

/// Validate the arguments a shim receives against the import's declared
/// parameter types: the typed prefix comes back, or the type-mismatch error
/// exactly when the arguments do not match.
pub fn validate_args(args: &Vec<WasmVal>, shape: &Vec<ValType>) -> (r: Result<
    Vec<WasmVal>,
    CoreError,
>)
    ensures
        match r {
            Ok(v) => args_match(args@, shape@) && v@ == args@.subrange(0, shape@.len() as int),
            Err(e) => e == CoreError::Execution(CoreExecutionError::FuncTypeMismatch)
                && !args_match(args@, shape@),
        },
{
    if args.len() < shape.len() {
        return Err(func_type_miss_match_error());
    }
    let mut out: Vec<WasmVal> = Vec::new();
    let mut k: usize = 0;
    while k < shape.len()
        invariant
            k <= shape@.len(),
            args@.len() >= shape@.len(),
            out@ == args@.subrange(0, k as int),
            forall|j: int| 0 <= j < k ==> val_type_of(#[trigger] args@[j]) == shape@[j],
        decreases shape@.len() - k,
    {
        let a = args[k];
        let ok = match (a, shape[k]) {
            (WasmVal::I32(_), ValType::I32) => true,
            (WasmVal::I64(_), ValType::I64) => true,
            (WasmVal::F32Bits(_), ValType::F32) => true,
            (WasmVal::F64Bits(_), ValType::F64) => true,
            (WasmVal::V128(_), ValType::V128) => true,
            (WasmVal::Null, ValType::Null) => true,
            _ => false,
        };
        if !ok {
            return Err(func_type_miss_match_error());
        }
        out.push(a);
        proof {
            assert(out@ =~= args@.subrange(0, k as int + 1));
        }
        k = k + 1;
    }
    proof {
        assert(out@ =~= args@.subrange(0, shape@.len() as int));
    }
    Ok(out)
}

/// The prefix every asynchronous import name must carry.
pub open spec fn async_name_prefix() -> Seq<u8> {
    seq![0x61u8, 0x73u8, 0x79u8, 0x6eu8, 0x63u8, 0x5fu8]
}

/// Enforce the asynchronous-import naming convention at registration time:
/// only a name beginning with the bytes of `async_` may be bound as an
/// asynchronous host function.
pub fn check_async_name(name: &[u8]) -> (r: Result<(), AddFuncError>)
    ensures
        match r {
            Ok(_) => name@.len() >= 6 && name@.subrange(0, 6) == async_name_prefix(),
            Err(e) => e == AddFuncError::IllegalName && (name@.len() < 6 || name@.subrange(0, 6)
                != async_name_prefix()),
        },
{
    if name.len() < 6 {
        return Err(AddFuncError::IllegalName);
    }
    if name[0] == 0x61 && name[1] == 0x73 && name[2] == 0x79 && name[3] == 0x6e && name[4] == 0x63
        && name[5] == 0x5f {
        proof {
            assert(name@.subrange(0, 6) =~= async_name_prefix());
        }
        Ok(())
    } else {
        proof {
            if name@.subrange(0, 6) == async_name_prefix() {
                assert(forall|k: int|
                    0 <= k < 6 ==> #[trigger] name@.subrange(0, 6)[k] == name@[k]);
                assert(name@[0] == 0x61 && name@[1] == 0x73 && name@[2] == 0x79 && name@[3] == 0x6e
                    && name@[4] == 0x63 && name@[5] == 0x5f);
            }
        }
        Err(AddFuncError::IllegalName)
    }
}

/// The optimization level handed to the ahead-of-time compiler.
#[derive(Clone, Copy, Debug, PartialEq, Eq, Structural)]
pub enum CompilerOptimizationLevel {
    /// Disable as many optimizations as possible.
    O0,
    /// Optimize quickly without destroying debuggability.
    O1,
    /// Optimize for fast execution without significant compile-time or
    /// code-size growth.
    O2,
    /// Optimize for fast execution as much as possible.
    O3,
    /// Optimize for small code size without significant slowdowns.
    Os,
    /// Optimize for small code size as much as possible.
    Oz,
}

impl CompilerOptimizationLevel {
    /// The engine's numeric encoding of this level.
    pub fn to_u32(self) -> (r: u32)
        ensures
            r <= 5,
            Self::spec_from_u32(r as int) == self,
    {
        match self {
            CompilerOptimizationLevel::O0 => 0,
            CompilerOptimizationLevel::O1 => 1,
            CompilerOptimizationLevel::O2 => 2,
            CompilerOptimizationLevel::O3 => 3,
            CompilerOptimizationLevel::Os => 4,
            CompilerOptimizationLevel::Oz => 5,
        }
    }

    /// The level a numeric encoding denotes; only the six defined encodings
    /// are accepted.
    pub fn from_u32(val: u32) -> (r: Self)
        requires
            val <= 5,
        ensures
            r == Self::spec_from_u32(val as int),
    {
        match val {
            0 => CompilerOptimizationLevel::O0,
            1 => CompilerOptimizationLevel::O1,
            2 => CompilerOptimizationLevel::O2,
            3 => CompilerOptimizationLevel::O3,
            4 => CompilerOptimizationLevel::Os,
            _ => CompilerOptimizationLevel::Oz,
        }
    }

    /// What `from_u32` returns.
    pub open spec fn spec_from_u32(val: int) -> Self {
        if val == 0 {
            CompilerOptimizationLevel::O0
        } else if val == 1 {
            CompilerOptimizationLevel::O1
        } else if val == 2 {
            CompilerOptimizationLevel::O2
        } else if val == 3 {
            CompilerOptimizationLevel::O3
        } else if val == 4 {
            CompilerOptimizationLevel::Os
        } else {
            CompilerOptimizationLevel::Oz
        }
    }
}

/// The output form of the ahead-of-time compiler.
#[derive(Clone, Copy, Debug, PartialEq, Eq, Structural)]
pub enum CompilerOutputFormat {
    /// A native dynamic library.
    Native,
    /// WebAssembly with compiled code in custom sections.
    Wasm,
}

impl CompilerOutputFormat {
    /// The engine's numeric encoding of this format.
    pub fn to_u32(self) -> (r: u32)
        ensures
            r <= 1,
            (r == 0 ==> self is Native) && (r == 1 ==> self is Wasm),
    {
        match self {
            CompilerOutputFormat::Native => 0,
            CompilerOutputFormat::Wasm => 1,
        }
    }

    /// The format a numeric encoding denotes; only the two defined
    /// encodings are accepted.
    pub fn from_u32(val: u32) -> (r: Self)
        requires
            val <= 1,
        ensures
            (val == 0 ==> r is Native) && (val == 1 ==> r is Wasm),
    {
        if val == 0 {
            CompilerOutputFormat::Native
        } else {
            CompilerOutputFormat::Wasm
        }
    }
}

} // verus!
