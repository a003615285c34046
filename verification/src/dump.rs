//! A human-readable dump of a module's IR: a diagnostic aid with no
//! contract on its exact layout.
use vstd::prelude::*;
use vstd::string::StringExecFns;

use crate::ir::{Inst, Operand, Value};
use crate::types::Type;
use crate::module::Module;

verus! {

/// The decimal digit `d % 10`, as text.
fn digit_str(d: usize) -> &'static str {
    let r: usize = d % 10;
    if r == 0 {
        "0"
    } else if r == 1 {
        "1"
    } else if r == 2 {
        "2"
    } else if r == 3 {
        "3"
    } else if r == 4 {
        "4"
    } else if r == 5 {
        "5"
    } else if r == 6 {
        "6"
    } else if r == 7 {
        "7"
    } else if r == 8 {
        "8"
    } else {
        "9"
    }
}

/// Appends the decimal rendering of `n`.
fn write_usize(out: &mut String, n: usize) {
    let mut digits: Vec<usize> = Vec::new();
    let mut v: usize = n;
    digits.push(v % 10);
    v = v / 10;
    while v > 0
        decreases v,
    {
        digits.push(v % 10);
        v = v / 10;
    }
    let mut i: usize = digits.len();
    while i > 0
        invariant
            i <= digits@.len(),
        decreases i,
    {
        i = i - 1;
        out.append(digit_str(digits[i]));
    }
}

/// Appends the rendering of a scalar type, such as `i32`.
fn write_type(out: &mut String, t: &Type) {
    out.append("i");
    write_usize(out, t.width as usize);
}

/// Appends the rendering of an operand: `%pN` for the `N`-th formal
/// parameter, `%tN` for the result of the `N`-th instruction.
fn write_operand(out: &mut String, v: &Value) {
    match v.operand {
        Operand::Param { index, .. } => {
            out.append("%p");
            write_usize(out, index);
        },
        Operand::InstResult { index, .. } => {
            out.append("%t");
            write_usize(out, index);
        },
    }
}

/// Appends the rendering of the instruction at position `index` of its
/// block.
fn write_inst(out: &mut String, inst: &Inst, index: usize) {
    match inst {
        Inst::Add { ty, lhs, rhs } => {
            out.append("  %t");
            write_usize(out, index);
            out.append(" = add ");
            write_type(out, ty);
            out.append(" ");
            write_operand(out, lhs);
            out.append(", ");
            write_operand(out, rhs);
            out.append("\n");
        },
        Inst::Ret { value } => {
            out.append("  ret ");
            write_type(out, &value.ty);
            out.append(" ");
            write_operand(out, value);
            out.append("\n");
        },
    }
}

impl Module {
    /// Renders a human-readable dump of the module's current IR.  The dump
    /// is a diagnostic side channel: its exact layout carries no contract.
    pub fn print(&self) -> String {
        let mut out: String = String::new();
        out.append("module ");
        out.append(self.name.as_str());
        out.append("\n");
        let mut f: usize = 0;
        while f < self.functions.len()
            invariant
                f <= self.functions@.len(),
            decreases self.functions@.len() - f,
        {
            let fd = &self.functions[f];
            out.append("\n");
            if fd.blocks.len() == 0 {
                out.append("declare ");
            } else {
                out.append("define ");
            }
            write_type(&mut out, &fd.ty.ret);
            out.append(" @");
            out.append(fd.name.as_str());
            out.append("(");
            let mut p: usize = 0;
            while p < fd.ty.params.len()
                invariant
                    p <= fd.ty.params@.len(),
                decreases fd.ty.params@.len() - p,
            {
                if p > 0 {
                    out.append(", ");
                }
                write_type(&mut out, &fd.ty.params[p]);
                p = p + 1;
            }
            out.append(")");
            if fd.blocks.len() == 0 {
                out.append("\n");
            } else {
                out.append(" {\n");
                let mut b: usize = 0;
                while b < fd.blocks.len()
                    invariant
                        b <= fd.blocks@.len(),
                    decreases fd.blocks@.len() - b,
                {
                    let blk = &fd.blocks[b];
                    out.append(blk.name.as_str());
                    out.append(":\n");
                    let mut i: usize = 0;
                    while i < blk.insts.len()
                        invariant
                            i <= blk.insts@.len(),
                        decreases blk.insts@.len() - i,
                    {
                        write_inst(&mut out, &blk.insts[i], i);
                        i = i + 1;
                    }
                    b = b + 1;
                }
                out.append("}\n");
            }
            f = f + 1;
        }
        out
    }
}

} // verus!
