//! Rendering fields to assembly text: one operand at a time
//! (`Field::to_string`), or a full listing line with an optional address
//! column, a 16-column label field, and comma-separated operands
//! (`fields_to_string`, `Op::to_string`). Addresses resolve against a
//! symbol table; a symbol that is itself a positive numeral gets the
//! local-label `b`/`f` suffix.

use crate::fields::{fields_of, fields_view, pseudo_fields_of, Field, FieldV};
use crate::op::Op;
use crate::text::{
    dec_int, hex_nat, i64_to_dec, pad_left, pad_left_s, pad_right, pad_right_s, parse_positive,
    parses_positive, u64_to_hex,
};
use std::collections::HashMap;
use vstd::prelude::*;
use vstd::string::{StrSliceExecFns, StringExecFns};

verus! {

/// The conventional name of an architectural register.
pub open spec fn reg_name(r: usize) -> Seq<char> {
    if r == 0 {
        "zero"@
    } else if r == 1 {
        "ra"@
    } else if r == 2 {
        "sp"@
    } else if r == 3 {
        "gp"@
    } else if r == 4 {
        "tp"@
    } else if r == 5 {
        "t0"@
    } else if r == 6 {
        "t1"@
    } else if r == 7 {
        "t2"@
    } else if r == 8 {
        "s0"@
    } else if r == 9 {
        "s1"@
    } else if r == 10 {
        "a0"@
    } else if r == 11 {
        "a1"@
    } else if r == 12 {
        "a2"@
    } else if r == 13 {
        "a3"@
    } else if r == 14 {
        "a4"@
    } else if r == 15 {
        "a5"@
    } else if r == 16 {
        "a6"@
    } else if r == 17 {
        "a7"@
    } else if r == 18 {
        "s2"@
    } else if r == 19 {
        "s3"@
    } else if r == 20 {
        "s4"@
    } else if r == 21 {
        "s5"@
    } else if r == 22 {
        "s6"@
    } else if r == 23 {
        "s7"@
    } else if r == 24 {
        "s8"@
    } else if r == 25 {
        "s9"@
    } else if r == 26 {
        "s10"@
    } else if r == 27 {
        "s11"@
    } else if r == 28 {
        "t3"@
    } else if r == 29 {
        "t4"@
    } else if r == 30 {
        "t5"@
    } else {
        "t6"@
    }
}

/// The conventional name of an architectural register.
pub fn reg_str(r: usize) -> (s: &'static str)
    requires
        r < 32,
    ensures
        s@ == reg_name(r),
{
    if r == 0 {
        "zero"
    } else if r == 1 {
        "ra"
    } else if r == 2 {
        "sp"
    } else if r == 3 {
        "gp"
    } else if r == 4 {
        "tp"
    } else if r == 5 {
        "t0"
    } else if r == 6 {
        "t1"
    } else if r == 7 {
        "t2"
    } else if r == 8 {
        "s0"
    } else if r == 9 {
        "s1"
    } else if r == 10 {
        "a0"
    } else if r == 11 {
        "a1"
    } else if r == 12 {
        "a2"
    } else if r == 13 {
        "a3"
    } else if r == 14 {
        "a4"
    } else if r == 15 {
        "a5"
    } else if r == 16 {
        "a6"
    } else if r == 17 {
        "a7"
    } else if r == 18 {
        "s2"
    } else if r == 19 {
        "s3"
    } else if r == 20 {
        "s4"
    } else if r == 21 {
        "s5"
    } else if r == 22 {
        "s6"
    } else if r == 23 {
        "s7"
    } else if r == 24 {
        "s8"
    } else if r == 25 {
        "s9"
    } else if r == 26 {
        "s10"
    } else if r == 27 {
        "s11"
    } else if r == 28 {
        "t3"
    } else if r == 29 {
        "t4"
    } else if r == 30 {
        "t5"
    } else {
        "t6"
    }
}

/// A field's address arithmetic stays in range (the register index of a
/// `Reg` or `Indirect` operand must also name a real register).
pub open spec fn field_renderable(f: FieldV, pc: i64, gp: i64) -> bool {
    match f {
        FieldV::Reg(r) => r < 32,
        FieldV::Indirect(_, r) => r < 32,
        FieldV::PCRelAddr(offset) => i64::MIN <= pc + offset <= i64::MAX,
        FieldV::GPRelAddr(offset) => i64::MIN <= gp + offset <= i64::MAX,
        _ => true,
    }
}

/// The text of one field. Immediates in [0, 9] render in decimal even in
/// hex mode; a zero indirect offset is elided unless verbose; a symbolized
/// program-counter-relative target renders as its symbol, with a `b`/`f`
/// suffix when the symbol is a positive numeral (the local-label
/// convention); a global-pointer-relative target resolves against gp.
pub open spec fn render_field(
    f: FieldV,
    pc: i64,
    gp: i64,
    hex: bool,
    verbose: bool,
    symbols: Map<i64, String>,
) -> Seq<char>
    recommends
        field_renderable(f, pc, gp),
{
    match f {
        FieldV::Opcode(s) => s,
        FieldV::Reg(r) => reg_name(r),
        FieldV::Imm(i) => if !hex || (0 <= i <= 9) {
            dec_int(i as int)
        } else {
            "0x"@ + hex_nat((i as u64) as nat)
        },
        FieldV::Indirect(imm, r) => if imm == 0 && !verbose {
            "("@ + reg_name(r) + ")"@
        } else if hex {
            "0x"@ + hex_nat((imm as u64) as nat) + "("@ + reg_name(r) + ")"@
        } else {
            dec_int(imm as int) + "("@ + reg_name(r) + ")"@
        },
        FieldV::PCRelAddr(offset) => {
            let addr = (pc + offset) as i64;
            if symbols.contains_key(addr) && !verbose {
                let sym = symbols[addr]@;
                if parses_positive(sym) {
                    sym + (if addr <= pc {
                        "b"@
                    } else {
                        "f"@
                    })
                } else {
                    sym
                }
            } else {
                if !hex || (0 <= offset <= 9) {
                    dec_int(offset as int)
                } else {
                    "0x"@ + hex_nat((offset as u64) as nat)
                }
            }
        },
        FieldV::GPRelAddr(offset) => {
            let addr = (gp + offset) as i64;
            if symbols.contains_key(addr) {
                symbols[addr]@
            } else {
                if !hex || (0 <= addr <= 9) {
                    dec_int(addr as int)
                } else {
                    "0x"@ + hex_nat((addr as u64) as nat)
                }
            }
        },
    }
}

impl Field {
    /// Render one field as text.
    pub fn to_string(
        &self,
        pc: i64,
        gp: i64,
        hex: bool,
        verbose: bool,
        symbols: &HashMap<i64, String>,
    ) -> (r: String)
        requires
            field_renderable(self@, pc, gp),
        ensures
            r@ == render_field(self@, pc, gp, hex, verbose, symbols@),
    {
        match *self {
            Field::Opcode(s) => String::from_str(s),
            Field::Reg(r) => String::from_str(reg_str(r)),
            Field::Imm(i) => {
                if !hex || (0 <= i && i <= 9) {
                    i64_to_dec(i)
                } else {
                    let r = String::from_str("0x").concat(
                        u64_to_hex(#[verifier::truncate] (i as u64)).as_str(),
                    );
                    proof {
                        assert(r@ =~= render_field(self@, pc, gp, hex, verbose, symbols@));
                    }
                    r
                }
            },
            Field::Indirect(imm, reg) => {
                let r = if imm == 0 && !verbose {
                    String::from_str("(").concat(reg_str(reg)).concat(")")
                } else if hex {
                    String::from_str("0x").concat(
                        u64_to_hex(#[verifier::truncate] (imm as u64)).as_str(),
                    ).concat("(").concat(reg_str(reg)).concat(")")
                } else {
                    i64_to_dec(imm).concat("(").concat(reg_str(reg)).concat(")")
                };
                proof {
                    assert(r@ =~= render_field(self@, pc, gp, hex, verbose, symbols@));
                }
                r
            },
            Field::PCRelAddr(offset) => {
                let addr = pc + offset;
                let looked = if !verbose {
                    symbols.get(&addr)
                } else {
                    None
                };
                match looked {
                    Some(sym) => {
                        match parse_positive(sym.as_str()) {
                            Some(_) => {
                                let suffix = if addr <= pc {
                                    "b"
                                } else {
                                    "f"
                                };
                                sym.clone().concat(suffix)
                            },
                            None => sym.clone(),
                        }
                    },
                    None => {
                        let r = if !hex || (0 <= offset && offset <= 9) {
                            i64_to_dec(offset)
                        } else {
                            String::from_str("0x").concat(
                                u64_to_hex(#[verifier::truncate] (offset as u64)).as_str(),
                            )
                        };
                        proof {
                            assert(r@ =~= render_field(self@, pc, gp, hex, verbose, symbols@));
                        }
                        r
                    },
                }
            },
            Field::GPRelAddr(offset) => {
                let addr = gp + offset;
                match symbols.get(&addr) {
                    Some(sym) => sym.clone(),
                    None => {
                        let r = if !hex || (0 <= addr && addr <= 9) {
                            i64_to_dec(addr)
                        } else {
                            String::from_str("0x").concat(
                                u64_to_hex(#[verifier::truncate] (addr as u64)).as_str(),
                            )
                        };
                        proof {
                            assert(r@ =~= render_field(self@, pc, gp, hex, verbose, symbols@));
                        }
                        r
                    },
                }
            },
        }
    }
}

/// The optional address column: hex or decimal, padded, with a trailing
/// space.
pub open spec fn addr_part_of(pc: i64, hex: bool, show_addresses: bool) -> Seq<char> {
    if !show_addresses {
        Seq::empty()
    } else if hex {
        "0x"@ + pad_left_s(hex_nat((pc as u64) as nat), 5) + " "@
    } else {
        pad_left_s(dec_int(pc as int), 7) + " "@
    }
}

/// The 16-column label field: the symbol at this address (truncated to 14
/// characters plus an ellipsis if longer) with a colon, space-padded, and
/// an optional cursor overlay at the right edge.
pub open spec fn label_of(pc: i64, symbols: Map<i64, String>, arrow: Option<Seq<char>>) -> Seq<
    char,
> {
    let base = if symbols.contains_key(pc) {
        let sym = symbols[pc]@;
        if sym.len() > 14 {
            sym.take(14) + "…"@ + ":"@
        } else if sym.len() > 0 {
            sym + ":"@
        } else {
            Seq::empty()
        }
    } else {
        Seq::empty()
    };
    let padded = pad_right_s(base, 16);
    match arrow {
        Some(ov) => padded.take(16 - ov.len() - 1) + ov + " "@,
        None => padded,
    }
}

/// The comma-separated operand list.
pub open spec fn render_ops(
    fs: Seq<FieldV>,
    pc: i64,
    gp: i64,
    hex: bool,
    verbose: bool,
    symbols: Map<i64, String>,
) -> Seq<char>
    decreases fs.len(),
{
    if fs.len() == 0 {
        Seq::empty()
    } else if fs.len() == 1 {
        render_field(fs[0], pc, gp, hex, verbose, symbols)
    } else {
        render_field(fs[0], pc, gp, hex, verbose, symbols) + ", "@ + render_ops(
            fs.skip(1),
            pc,
            gp,
            hex,
            verbose,
            symbols,
        )
    }
}

proof fn lemma_render_ops_push(
    fs: Seq<FieldV>,
    f: FieldV,
    pc: i64,
    gp: i64,
    hex: bool,
    verbose: bool,
    symbols: Map<i64, String>,
)
    ensures
        render_ops(fs.push(f), pc, gp, hex, verbose, symbols) == if fs.len() == 0 {
            render_field(f, pc, gp, hex, verbose, symbols)
        } else {
            render_ops(fs, pc, gp, hex, verbose, symbols) + ", "@ + render_field(
                f,
                pc,
                gp,
                hex,
                verbose,
                symbols,
            )
        },
    decreases fs.len(),
{
    if fs.len() == 0 {
        assert(fs.push(f).len() == 1);
        assert(fs.push(f)[0] == f);
    } else {
        assert(fs.push(f).skip(1) =~= fs.skip(1).push(f));
        lemma_render_ops_push(fs.skip(1), f, pc, gp, hex, verbose, symbols);
        if fs.len() == 1 {
            assert(render_ops(fs, pc, gp, hex, verbose, symbols) == render_field(
                fs[0],
                pc,
                gp,
                hex,
                verbose,
                symbols,
            ));
        }
    }
}

/// One full listing line: address column, label field, then the mnemonic
/// (`c.`-prefixed when verbose and compressed) padded to 8 columns and the
/// operands, the whole instruction text padded to 48 columns.
pub open spec fn render_line(
    fields: Seq<FieldV>,
    pc: i64,
    gp: i64,
    is_compressed: bool,
    hex: bool,
    verbose: bool,
    show_addresses: bool,
    arrow: Option<Seq<char>>,
    symbols: Map<i64, String>,
) -> Seq<char>
    recommends
        fields.len() >= 1,
{
    let mnemonic0 = render_field(fields[0], pc, gp, hex, verbose, symbols);
    let mnemonic = if verbose && is_compressed {
        "c."@ + mnemonic0
    } else {
        mnemonic0
    };
    let operands = render_ops(fields.skip(1), pc, gp, hex, verbose, symbols);
    let disasm = pad_right_s(mnemonic, 8) + operands;
    addr_part_of(pc, hex, show_addresses) + label_of(pc, symbols, arrow) + pad_right_s(disasm, 48)
}

/// Render one listing line from its fields.
#[verifier::loop_isolation(false)]
pub fn fields_to_string(
    fields: &[Field],
    pc: i64,
    gp: i64,
    is_compressed: bool,
    hex: bool,
    verbose: bool,
    show_addresses: bool,
    arrow: Option<&str>,
    symbols: &HashMap<i64, String>,
) -> (r: String)
    requires
        fields@.len() >= 1,
        forall|i: int| 0 <= i < fields@.len() ==> field_renderable(#[trigger] fields@[i]@, pc, gp),
        arrow matches Some(a) ==> a@.len() <= 15,
    ensures
        r@ == render_line(
            fields_view(fields@),
            pc,
            gp,
            is_compressed,
            hex,
            verbose,
            show_addresses,
            match arrow {
                Some(a) => Some(a@),
                None => None,
            },
            symbols@,
        ),
{
    let ghost fv = fields_view(fields@);
    let ghost symsv = symbols@;
    // the address column
    let addr_part = if !show_addresses {
        String::new()
    } else if hex {
        let h = u64_to_hex(#[verifier::truncate] (pc as u64));
        let hn = h.as_str().unicode_len();
        let r = String::from_str("0x").concat(pad_left(h, 5, hn).as_str()).concat(" ");
        proof {
            assert(r@ =~= addr_part_of(pc, hex, show_addresses));
        }
        r
    } else {
        let d = i64_to_dec(pc);
        let dn = d.as_str().unicode_len();
        let r = pad_left(d, 7, dn).concat(" ");
        proof {
            assert(r@ =~= addr_part_of(pc, hex, show_addresses));
        }
        r
    };
    proof {
        assert(addr_part@ =~= addr_part_of(pc, hex, show_addresses));
    }
    // the label field
    let mut label: String;
    let mut label_len: usize;
    match symbols.get(&pc) {
        Some(sym) => {
            let sl = sym.as_str().unicode_len();
            if sl > 14 {
                label = String::from_str(sym.as_str().substring_char(0, 14)).concat("…").concat(
                    ":",
                );
                label_len = 16;
                proof {
                    reveal_strlit("…");
                    reveal_strlit(":");
                }
            } else if sl > 0 {
                label = sym.clone().concat(":");
                label_len = sl + 1;
                proof {
                    reveal_strlit(":");
                }
            } else {
                label = String::new();
                label_len = 0;
            }
        },
        None => {
            label = String::new();
            label_len = 0;
        },
    }
    let mut label = pad_right(label, 16, label_len);
    match arrow {
        Some(ov) => {
            let ovn = ov.unicode_len();
            label = String::from_str(label.as_str().substring_char(0, 16 - ovn - 1)).concat(
                ov,
            ).concat(" ");
        },
        None => {},
    }
    proof {
        assert(label@ =~= label_of(
            pc,
            symsv,
            match arrow {
                Some(a) => Some(a@),
                None => None,
            },
        ));
    }
    // the mnemonic and operands
    let mnemonic0 = fields[0].to_string(pc, gp, hex, verbose, symbols);
    let mnemonic = if verbose && is_compressed {
        String::from_str("c.").concat(mnemonic0.as_str())
    } else {
        mnemonic0
    };
    let mut ops = String::new();
    let mut i: usize = 1;
    proof {
        assert(fields_view(fields@.subrange(1, 1)) =~= Seq::<FieldV>::empty());
    }
    while i < fields.len()
        invariant
            1 <= i <= fields@.len(),
            ops@ == render_ops(fields_view(fields@.subrange(1, i as int)), pc, gp, hex, verbose, symsv),
        decreases fields@.len() - i,
    {
        let part = fields[i].to_string(pc, gp, hex, verbose, symbols);
        if i == 1 {
            ops = part;
        } else {
            ops = ops.concat(", ").concat(part.as_str());
        }
        proof {
            lemma_render_ops_push(
                fields_view(fields@.subrange(1, i as int)),
                fields@[i as int]@,
                pc,
                gp,
                hex,
                verbose,
                symsv,
            );
            assert(fields_view(fields@.subrange(1, i + 1)) =~= fields_view(
                fields@.subrange(1, i as int),
            ).push(fields@[i as int]@));
            assert(ops@ =~= render_ops(
                fields_view(fields@.subrange(1, i + 1)),
                pc,
                gp,
                hex,
                verbose,
                symsv,
            ));
        }
        i += 1;
    }
    proof {
        assert(fields@.subrange(1, fields@.len() as int) =~= fields@.skip(1));
        assert(fields_view(fields@.skip(1)) =~= fv.skip(1));
    }
    let mn = mnemonic.as_str().unicode_len();
    let disasm = pad_right(mnemonic, 8, mn).concat(ops.as_str());
    let dn = disasm.as_str().unicode_len();
    let line = addr_part.concat(label.as_str()).concat(pad_right(disasm, 48, dn).as_str());
    proof {
        assert(line@ =~= render_line(
            fv,
            pc,
            gp,
            is_compressed,
            hex,
            verbose,
            show_addresses,
            match arrow {
                Some(a) => Some(a@),
                None => None,
            },
            symsv,
        ));
    }
    line
}

impl Op {
    /// Render the operation as one listing line: canonically when verbose,
    /// with pseudo-instruction recognition otherwise.
    pub fn to_string(
        &self,
        pc: i64,
        gp: i64,
        is_compressed: bool,
        hex: bool,
        verbose: bool,
        show_addresses: bool,
        arrow: Option<&str>,
        symbols: &HashMap<i64, String>,
    ) -> (r: String)
        requires
            verbose ==> forall|i: int|
                0 <= i < fields_of(*self).len() ==> field_renderable(
                    #[trigger] fields_of(*self)[i],
                    pc,
                    gp,
                ),
            !verbose ==> forall|i: int|
                0 <= i < pseudo_fields_of(*self).len() ==> field_renderable(
                    #[trigger] pseudo_fields_of(*self)[i],
                    pc,
                    gp,
                ),
            arrow matches Some(a) ==> a@.len() <= 15,
        ensures
            r@ == render_line(
                if verbose {
                    fields_of(*self)
                } else {
                    pseudo_fields_of(*self)
                },
                pc,
                gp,
                is_compressed,
                hex,
                verbose,
                show_addresses,
                match arrow {
                    Some(a) => Some(a@),
                    None => None,
                },
                symbols@,
            ),
    {
        proof {
            crate::fields::lemma_fields_nonempty(*self);
        }
        let fields = if verbose {
            self.to_fields()
        } else {
            self.to_pseudo_fields()
        };
        proof {
            assert forall|i: int| 0 <= i < fields@.len() implies field_renderable(
                #[trigger] fields@[i]@,
                pc,
                gp,
            ) by {
                assert(fields@[i]@ == fields_view(fields@)[i]);
            }
        }
        fields_to_string(
            fields.as_slice(),
            pc,
            gp,
            is_compressed,
            hex,
            verbose,
            show_addresses,
            arrow,
            symbols,
        )
    }
}

} // verus!
