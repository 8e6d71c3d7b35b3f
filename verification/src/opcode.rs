//! The fixed enumeration of micro-operation kinds: data movement,
//! arithmetic, comparison, control transfer and type-cast operations, as the
//! external decoding engine reports them.
use vstd::prelude::*;
use vstd::string::StringExecFns;

verus! {

#[allow(non_camel_case_types)]
#[derive(Debug, Clone, Copy, PartialEq, Eq, Structural)]
pub enum PcodeOpCode {
    COPY,
    LOAD,
    STORE,
    BRANCH,
    CBRANCH,
    BRANCHIND,
    CALL,
    CALLIND,
    CALLOTHER,
    RETURN,
    INT_EQUAL,
    INT_NOTEQUAL,
    INT_SLESS,
    INT_SLESSEQUAL,
    INT_LESS,
    INT_LESSEQUAL,
    INT_ZEXT,
    INT_SEXT,
    INT_ADD,
    INT_SUB,
    INT_CARRY,
    INT_SCARRY,
    INT_SBORROW,
    INT_2COMP,
    INT_NEGATE,
    INT_XOR,
    INT_AND,
    INT_OR,
    INT_LEFT,
    INT_RIGHT,
    INT_SRIGHT,
    INT_MULT,
    INT_DIV,
    INT_SDIV,
    INT_REM,
    INT_SREM,
    BOOL_NEGATE,
    BOOL_XOR,
    BOOL_AND,
    BOOL_OR,
    FLOAT_EQUAL,
    FLOAT_NOTEQUAL,
    FLOAT_LESS,
    FLOAT_LESSEQUAL,
    FLOAT_NAN,
    FLOAT_ADD,
    FLOAT_DIV,
    FLOAT_MULT,
    FLOAT_SUB,
    FLOAT_NEG,
    FLOAT_ABS,
    FLOAT_SQRT,
    FLOAT_INT2FLOAT,
    FLOAT_FLOAT2FLOAT,
    FLOAT_TRUNC,
    FLOAT_CEIL,
    FLOAT_FLOOR,
    FLOAT_ROUND,
    MULTIEQUAL,
    INDIRECT,
    PIECE,
    SUBPIECE,
    CAST,
    PTRADD,
    PTRSUB,
    SEGMENTOP,
    CPOOLREF,
    NEW,
    INSERT,
    EXTRACT,
    POPCOUNT,
    MAX,
}

impl PcodeOpCode {
    /// The text of [`PcodeOpCode::name`]: each operation kind spelled as its
    /// own identifier.
    pub open spec fn spec_name(&self) -> Seq<char> {
        match self {
            PcodeOpCode::COPY => "COPY"@,
            PcodeOpCode::LOAD => "LOAD"@,
            PcodeOpCode::STORE => "STORE"@,
            PcodeOpCode::BRANCH => "BRANCH"@,
            PcodeOpCode::CBRANCH => "CBRANCH"@,
            PcodeOpCode::BRANCHIND => "BRANCHIND"@,
            PcodeOpCode::CALL => "CALL"@,
            PcodeOpCode::CALLIND => "CALLIND"@,
            PcodeOpCode::CALLOTHER => "CALLOTHER"@,
            PcodeOpCode::RETURN => "RETURN"@,
            PcodeOpCode::INT_EQUAL => "INT_EQUAL"@,
            PcodeOpCode::INT_NOTEQUAL => "INT_NOTEQUAL"@,
            PcodeOpCode::INT_SLESS => "INT_SLESS"@,
            PcodeOpCode::INT_SLESSEQUAL => "INT_SLESSEQUAL"@,
            PcodeOpCode::INT_LESS => "INT_LESS"@,
            PcodeOpCode::INT_LESSEQUAL => "INT_LESSEQUAL"@,
            PcodeOpCode::INT_ZEXT => "INT_ZEXT"@,
            PcodeOpCode::INT_SEXT => "INT_SEXT"@,
            PcodeOpCode::INT_ADD => "INT_ADD"@,
            PcodeOpCode::INT_SUB => "INT_SUB"@,
            PcodeOpCode::INT_CARRY => "INT_CARRY"@,
            PcodeOpCode::INT_SCARRY => "INT_SCARRY"@,
            PcodeOpCode::INT_SBORROW => "INT_SBORROW"@,
            PcodeOpCode::INT_2COMP => "INT_2COMP"@,
            PcodeOpCode::INT_NEGATE => "INT_NEGATE"@,
            PcodeOpCode::INT_XOR => "INT_XOR"@,
            PcodeOpCode::INT_AND => "INT_AND"@,
            PcodeOpCode::INT_OR => "INT_OR"@,
            PcodeOpCode::INT_LEFT => "INT_LEFT"@,
            PcodeOpCode::INT_RIGHT => "INT_RIGHT"@,
            PcodeOpCode::INT_SRIGHT => "INT_SRIGHT"@,
            PcodeOpCode::INT_MULT => "INT_MULT"@,
            PcodeOpCode::INT_DIV => "INT_DIV"@,
            PcodeOpCode::INT_SDIV => "INT_SDIV"@,
            PcodeOpCode::INT_REM => "INT_REM"@,
            PcodeOpCode::INT_SREM => "INT_SREM"@,
            PcodeOpCode::BOOL_NEGATE => "BOOL_NEGATE"@,
            PcodeOpCode::BOOL_XOR => "BOOL_XOR"@,
            PcodeOpCode::BOOL_AND => "BOOL_AND"@,
            PcodeOpCode::BOOL_OR => "BOOL_OR"@,
            PcodeOpCode::FLOAT_EQUAL => "FLOAT_EQUAL"@,
            PcodeOpCode::FLOAT_NOTEQUAL => "FLOAT_NOTEQUAL"@,
            PcodeOpCode::FLOAT_LESS => "FLOAT_LESS"@,
            PcodeOpCode::FLOAT_LESSEQUAL => "FLOAT_LESSEQUAL"@,
            PcodeOpCode::FLOAT_NAN => "FLOAT_NAN"@,
            PcodeOpCode::FLOAT_ADD => "FLOAT_ADD"@,
            PcodeOpCode::FLOAT_DIV => "FLOAT_DIV"@,
            PcodeOpCode::FLOAT_MULT => "FLOAT_MULT"@,
            PcodeOpCode::FLOAT_SUB => "FLOAT_SUB"@,
            PcodeOpCode::FLOAT_NEG => "FLOAT_NEG"@,
            PcodeOpCode::FLOAT_ABS => "FLOAT_ABS"@,
            PcodeOpCode::FLOAT_SQRT => "FLOAT_SQRT"@,
            PcodeOpCode::FLOAT_INT2FLOAT => "FLOAT_INT2FLOAT"@,
            PcodeOpCode::FLOAT_FLOAT2FLOAT => "FLOAT_FLOAT2FLOAT"@,
            PcodeOpCode::FLOAT_TRUNC => "FLOAT_TRUNC"@,
            PcodeOpCode::FLOAT_CEIL => "FLOAT_CEIL"@,
            PcodeOpCode::FLOAT_FLOOR => "FLOAT_FLOOR"@,
            PcodeOpCode::FLOAT_ROUND => "FLOAT_ROUND"@,
            PcodeOpCode::MULTIEQUAL => "MULTIEQUAL"@,
            PcodeOpCode::INDIRECT => "INDIRECT"@,
            PcodeOpCode::PIECE => "PIECE"@,
            PcodeOpCode::SUBPIECE => "SUBPIECE"@,
            PcodeOpCode::CAST => "CAST"@,
            PcodeOpCode::PTRADD => "PTRADD"@,
            PcodeOpCode::PTRSUB => "PTRSUB"@,
            PcodeOpCode::SEGMENTOP => "SEGMENTOP"@,
            PcodeOpCode::CPOOLREF => "CPOOLREF"@,
            PcodeOpCode::NEW => "NEW"@,
            PcodeOpCode::INSERT => "INSERT"@,
            PcodeOpCode::EXTRACT => "EXTRACT"@,
            PcodeOpCode::POPCOUNT => "POPCOUNT"@,
            PcodeOpCode::MAX => "MAX"@,
        }
    }

    /// The name of the operation kind, e.g. for the tabular export.
    pub fn name(&self) -> (r: String)
        ensures
            r@ == self.spec_name(),
    {
        let s: &str = match self {
            PcodeOpCode::COPY => "COPY",
            PcodeOpCode::LOAD => "LOAD",
            PcodeOpCode::STORE => "STORE",
            PcodeOpCode::BRANCH => "BRANCH",
            PcodeOpCode::CBRANCH => "CBRANCH",
            PcodeOpCode::BRANCHIND => "BRANCHIND",
            PcodeOpCode::CALL => "CALL",
            PcodeOpCode::CALLIND => "CALLIND",
            PcodeOpCode::CALLOTHER => "CALLOTHER",
            PcodeOpCode::RETURN => "RETURN",
            PcodeOpCode::INT_EQUAL => "INT_EQUAL",
            PcodeOpCode::INT_NOTEQUAL => "INT_NOTEQUAL",
            PcodeOpCode::INT_SLESS => "INT_SLESS",
            PcodeOpCode::INT_SLESSEQUAL => "INT_SLESSEQUAL",
            PcodeOpCode::INT_LESS => "INT_LESS",
            PcodeOpCode::INT_LESSEQUAL => "INT_LESSEQUAL",
            PcodeOpCode::INT_ZEXT => "INT_ZEXT",
            PcodeOpCode::INT_SEXT => "INT_SEXT",
            PcodeOpCode::INT_ADD => "INT_ADD",
            PcodeOpCode::INT_SUB => "INT_SUB",
            PcodeOpCode::INT_CARRY => "INT_CARRY",
            PcodeOpCode::INT_SCARRY => "INT_SCARRY",
            PcodeOpCode::INT_SBORROW => "INT_SBORROW",
            PcodeOpCode::INT_2COMP => "INT_2COMP",
            PcodeOpCode::INT_NEGATE => "INT_NEGATE",
            PcodeOpCode::INT_XOR => "INT_XOR",
            PcodeOpCode::INT_AND => "INT_AND",
            PcodeOpCode::INT_OR => "INT_OR",
            PcodeOpCode::INT_LEFT => "INT_LEFT",
            PcodeOpCode::INT_RIGHT => "INT_RIGHT",
            PcodeOpCode::INT_SRIGHT => "INT_SRIGHT",
            PcodeOpCode::INT_MULT => "INT_MULT",
            PcodeOpCode::INT_DIV => "INT_DIV",
            PcodeOpCode::INT_SDIV => "INT_SDIV",
            PcodeOpCode::INT_REM => "INT_REM",
            PcodeOpCode::INT_SREM => "INT_SREM",
            PcodeOpCode::BOOL_NEGATE => "BOOL_NEGATE",
            PcodeOpCode::BOOL_XOR => "BOOL_XOR",
            PcodeOpCode::BOOL_AND => "BOOL_AND",
            PcodeOpCode::BOOL_OR => "BOOL_OR",
            PcodeOpCode::FLOAT_EQUAL => "FLOAT_EQUAL",
            PcodeOpCode::FLOAT_NOTEQUAL => "FLOAT_NOTEQUAL",
            PcodeOpCode::FLOAT_LESS => "FLOAT_LESS",
            PcodeOpCode::FLOAT_LESSEQUAL => "FLOAT_LESSEQUAL",
            PcodeOpCode::FLOAT_NAN => "FLOAT_NAN",
            PcodeOpCode::FLOAT_ADD => "FLOAT_ADD",
            PcodeOpCode::FLOAT_DIV => "FLOAT_DIV",
            PcodeOpCode::FLOAT_MULT => "FLOAT_MULT",
            PcodeOpCode::FLOAT_SUB => "FLOAT_SUB",
            PcodeOpCode::FLOAT_NEG => "FLOAT_NEG",
            PcodeOpCode::FLOAT_ABS => "FLOAT_ABS",
            PcodeOpCode::FLOAT_SQRT => "FLOAT_SQRT",
            PcodeOpCode::FLOAT_INT2FLOAT => "FLOAT_INT2FLOAT",
            PcodeOpCode::FLOAT_FLOAT2FLOAT => "FLOAT_FLOAT2FLOAT",
            PcodeOpCode::FLOAT_TRUNC => "FLOAT_TRUNC",
            PcodeOpCode::FLOAT_CEIL => "FLOAT_CEIL",
            PcodeOpCode::FLOAT_FLOOR => "FLOAT_FLOOR",
            PcodeOpCode::FLOAT_ROUND => "FLOAT_ROUND",
            PcodeOpCode::MULTIEQUAL => "MULTIEQUAL",
            PcodeOpCode::INDIRECT => "INDIRECT",
            PcodeOpCode::PIECE => "PIECE",
            PcodeOpCode::SUBPIECE => "SUBPIECE",
            PcodeOpCode::CAST => "CAST",
            PcodeOpCode::PTRADD => "PTRADD",
            PcodeOpCode::PTRSUB => "PTRSUB",
            PcodeOpCode::SEGMENTOP => "SEGMENTOP",
            PcodeOpCode::CPOOLREF => "CPOOLREF",
            PcodeOpCode::NEW => "NEW",
            PcodeOpCode::INSERT => "INSERT",
            PcodeOpCode::EXTRACT => "EXTRACT",
            PcodeOpCode::POPCOUNT => "POPCOUNT",
            PcodeOpCode::MAX => "MAX",
        };
        s.to_owned()
    }
}

} // verus!
