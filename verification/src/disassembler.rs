//! The one-line disassembler and the symbol table the trace output draws
//! on: a 256-entry opcode table of mnemonic and addressing mode, shared
//! byte-for-byte with the CPU's decoder.

use vstd::prelude::*;

use crate::util::hex2;
use crate::util::hex4;
use crate::util::pad_to;

verus! {

/// Address-to-name entries; a later entry for the same address wins.
pub struct SymbolTable {
    symbols: Vec<(u16, Vec<u8>)>,
}

impl SymbolTable {
    /// The entries in the order they were loaded, names as ASCII bytes.
    pub closed spec fn spec_symbols(&self) -> Seq<(u16, Seq<u8>)> {
        self.symbols@.map_values(|e: (u16, Vec<u8>)| (e.0, e.1@))
    }

    pub fn new() -> (r: SymbolTable)
        ensures
            r.spec_symbols() == Seq::<(u16, Seq<u8>)>::empty(),
    {
        let r = SymbolTable { symbols: Vec::new() };
        proof {
            assert(r.spec_symbols() =~= Seq::<(u16, Seq<u8>)>::empty());
        }
        r
    }

    /// Loads entries from a symbol file: each non-empty line carries a
    /// hex address and a name separated by whitespace; unparsable lines
    /// are skipped, and later entries override earlier ones.
    pub fn load_symbols(&mut self, data: &[u8])
        ensures
            final(self).spec_symbols() == old(self).spec_symbols() + spec_symbols_from(
                data@,
                0,
            ),
    {
        let ghost base = self.spec_symbols();
        let mut pos: usize = 0;
        while pos < data.len()
            invariant
                pos <= data@.len(),
                base + spec_symbols_from(data@, 0) == self.spec_symbols() + spec_symbols_from(
                    data@,
                    pos as int,
                ),
            decreases data@.len() - pos,
        {
            let ghost before = self.spec_symbols();
            let j = find_line_end(data, pos);
            let ghost entry = spec_line_entry(data@, pos as int, j as int);
            let s0 = skip_ws_to(data, pos, j);
            if s0 < j {
                let e0 = tok_end_to(data, s0, j);
                let s1 = skip_ws_to(data, e0, j);
                if s1 < j {
                    let e1 = tok_end_to(data, s1, j);
                    if let Some(address) = parse_hex16_range(data, s0, e0) {
                        let mut name: Vec<u8> = Vec::new();
                        let mut k = s1;
                        while k < e1
                            invariant
                                s1 <= k <= e1,
                                e1 <= data@.len(),
                                name@ == data@.subrange(s1 as int, k as int),
                            decreases e1 - k,
                        {
                            name.push(data[k]);
                            proof {
                                assert(name@ =~= data@.subrange(s1 as int, k + 1));
                            }
                            k = k + 1;
                        }
                        proof {
                            assert(entry =~= seq![(address, name@)]);
                        }
                        self.symbols.push((address, name));
                        proof {
                            assert(self.spec_symbols() =~= before + entry);
                        }
                    }
                }
            }
            proof {
                if self.spec_symbols() == before {
                    assert(entry =~= Seq::<(u16, Seq<u8>)>::empty());
                    assert(before + entry =~= before);
                }
                assert(self.spec_symbols() == before + entry);
            }
            let next = if j < data.len() {
                j + 1
            } else {
                data.len()
            };
            proof {
                assert(spec_symbols_from(data@, pos as int) == entry + spec_symbols_from(
                    data@,
                    next as int,
                ));
                assert((self.spec_symbols() + spec_symbols_from(data@, next as int)) =~= (
                before + (entry + spec_symbols_from(data@, next as int))));
            }
            pos = next;
        }
        proof {
            assert(spec_symbols_from(data@, pos as int) =~= Seq::<(u16, Seq<u8>)>::empty());
            assert(self.spec_symbols() =~= self.spec_symbols() + spec_symbols_from(
                data@,
                pos as int,
            ));
            assert(base + spec_symbols_from(data@, 0) =~= self.spec_symbols());
        }
    }

    /// The stored name for an address, latest entry first.
    fn lookup_bytes(&self, address: u16) -> (r: Option<&Vec<u8>>)
        ensures
            match r {
                Some(name) => spec_sym_lookup(self.spec_symbols(), address) == Some(name@),
                None => spec_sym_lookup(self.spec_symbols(), address) is None,
            },
    {
        let ghost syms = self.spec_symbols();
        let mut i = self.symbols.len();
        proof {
            assert(syms.take(i as int) =~= syms);
        }
        while i > 0
            invariant
                i <= self.symbols@.len(),
                syms == self.spec_symbols(),
                spec_sym_lookup(syms, address) == spec_sym_lookup(syms.take(i as int), address),
            decreases i,
        {
            i = i - 1;
            if self.symbols[i].0 == address {
                proof {
                    assert(syms.take(i + 1).last() == syms[i as int]);
                    assert(syms[i as int].1 == self.symbols@[i as int].1@);
                }
                return Some(&self.symbols[i].1);
            }
            proof {
                assert(syms.take(i + 1).last() == syms[i as int]);
                assert(syms.take(i + 1).drop_last() =~= syms.take(i as int));
            }
        }
        proof {
            assert(syms.take(0) =~= Seq::<(u16, Seq<u8>)>::empty());
        }
        None
    }

    /// Rewrites a trace line's suffix through the symbol table: the last
    /// hex operand that resolves to a symbol yields `" ; name"`, one that
    /// does not yields an empty suffix, and a line without any hex
    /// operand passes through unchanged.
    pub fn append_symbol(&self, disassembly: String) -> (r: String)
        ensures
            r@ == spec_append_symbol(self.spec_symbols(), disassembly@),
    {
        let caps = scan_hex_captures(disassembly.as_str());
        let ghost capsv = caps.deep_view();
        let ghost syms = self.spec_symbols();
        let mut updated = disassembly.clone();
        let mut k: usize = 0;
        while k < caps.len()
            invariant
                k <= caps@.len(),
                capsv == caps.deep_view(),
                capsv.len() == caps@.len(),
                forall|i: int| 0 <= i < caps@.len() ==> capsv[i] == caps@[i]@,
                syms == self.spec_symbols(),
                forall|i: int| 0 <= i < capsv.len() ==> (#[trigger] capsv[i]).len() == 4,
                forall|i: int, j: int|
                    0 <= i < capsv.len() && 0 <= j < 4 ==> (('0' <= #[trigger] capsv[i][j]
                        <= '9') || ('A' <= capsv[i][j] <= 'F')),
                updated@ == spec_append_fold(syms, disassembly@, capsv, k as int),
            decreases caps@.len() - k,
        {
            let cap: &String = &caps[k];
            let cap_str = cap.as_str();
            proof {
                assert(cap_str@ == capsv[k as int]);
                assert(vstd::utf8::is_ascii_chars(cap_str@)) by {
                    assert(forall|j: int| 0 <= j < cap_str@.len() ==> '\0'
                        <= #[trigger] cap_str@[j] <= '\u{7f}');
                }
                vstd::string::is_ascii_spec_bytes(cap_str);
            }
            let cb = cap_str.as_bytes();
            proof {
                assert(cb@ =~= cap@.map_values(|c: char| c as u8));
            }
            if let Some(address) = parse_hex16_range(cb, 0, cb.len()) {
                match self.lookup_bytes(address) {
                    Some(name) => {
                        let mut out: Vec<u8> = Vec::new();
                        out.push(' ' as u8);
                        out.push(';' as u8);
                        out.push(' ' as u8);
                        crate::util::append_all(&mut out, name);
                        proof {
                            assert(out@ =~= seq![(' ' as u8), (';' as u8), (' ' as u8)]
                                + name@);
                        }
                        updated = crate::util::lossy_string(&out);
                    },
                    None => {
                        updated = String::new();
                    },
                }
            }
            k = k + 1;
        }
        proof {
            assert(updated@ == spec_append_fold(syms, disassembly@, capsv, capsv.len() as int));
        }
        updated
    }
}

/// What the fixed pattern finds in a trace line: the four hex digits
/// after each dollar sign, in order of appearance.
pub uninterp spec fn hex_addr_captures(s: Seq<char>) -> Seq<Seq<char>>;

/// Relies on `regex::Regex::captures_iter` with the pattern
/// `\$([0-9A-F]{4})`: each captured group is exactly the four upper-case
/// hex digits following a dollar sign, and the scan depends on the text
/// alone.
#[verifier::external_body]
fn scan_hex_captures(s: &str) -> (r: Vec<String>)
    ensures
        r.deep_view() == hex_addr_captures(s@),
        forall|i: int| 0 <= i < r.deep_view().len() ==> (#[trigger] r.deep_view()[i]).len()
            == 4,
        forall|i: int, j: int|
            0 <= i < r.deep_view().len() && 0 <= j < 4 ==> (('0'
                <= #[trigger] r.deep_view()[i][j] <= '9') || ('A' <= r.deep_view()[i][j]
                <= 'F')),
{
    let mut out: Vec<String> = Vec::new();
    if let Ok(re) = regex::Regex::new("\\$([0-9A-F]{4})") {
        for cap in re.captures_iter(s) {
            if let Some(group) = cap.get(1) {
                out.push(group.as_str().to_owned());
            }
        }
    }
    out
}

/// The value of one four-digit capture, read as hex.
pub open spec fn spec_cap_value(t: Seq<char>) -> Option<u16> {
    spec_parse_hex16(t.map_values(|c: char| c as u8), 0, t.len() as int)
}

/// The suffix after folding the first `k` captures over a line, as the
/// rewriting loop leaves it: each parsed capture that resolves replaces
/// the suffix with `" ; name"`, one that does not resolve clears it, and
/// an unparsable capture leaves the previous suffix.
pub open spec fn spec_append_fold(
    syms: Seq<(u16, Seq<u8>)>,
    s: Seq<char>,
    caps: Seq<Seq<char>>,
    k: int,
) -> Seq<char>
    decreases k,
{
    if k <= 0 {
        s
    } else {
        let prev = spec_append_fold(syms, s, caps, k - 1);
        match spec_cap_value(caps[k - 1]) {
            None => prev,
            Some(address) => match spec_sym_lookup(syms, address) {
                Some(name) => crate::util::utf8_lossy_of(
                    seq![(' ' as u8), (';' as u8), (' ' as u8)] + name,
                ),
                None => Seq::<char>::empty(),
            },
        }
    }
}

/// The whole rewritten suffix for a line.
pub open spec fn spec_append_symbol(syms: Seq<(u16, Seq<u8>)>, s: Seq<char>) -> Seq<char> {
    spec_append_fold(syms, s, hex_addr_captures(s), hex_addr_captures(s).len() as int)
}

/// The first line-feed position at or after `pos`.
pub(crate) fn find_line_end(data: &[u8], pos: usize) -> (r: usize)
    requires
        pos <= data@.len(),
    ensures
        r == spec_line_end(data@, pos as int),
        pos <= r <= data@.len(),
{
    let mut j = pos;
    while j < data.len() && data[j] != 10
        invariant
            pos <= j <= data@.len(),
            spec_line_end(data@, pos as int) == spec_line_end(data@, j as int),
        decreases data@.len() - j,
    {
        j = j + 1;
    }
    j
}

/// The first non-whitespace position in `[pos, limit)`.
fn skip_ws_to(data: &[u8], pos: usize, limit: usize) -> (r: usize)
    requires
        pos <= limit <= data@.len(),
    ensures
        r == spec_skip_ws(data@, pos as int, limit as int),
        pos <= r <= limit,
{
    let mut j = pos;
    while j < limit && (data[j] == 32 || data[j] == 9 || data[j] == 13)
        invariant
            pos <= j <= limit,
            limit <= data@.len(),
            spec_skip_ws(data@, pos as int, limit as int) == spec_skip_ws(
                data@,
                j as int,
                limit as int,
            ),
        decreases limit - j,
    {
        j = j + 1;
    }
    j
}

/// The position just past the token starting at `pos` in `[pos, limit)`.
fn tok_end_to(data: &[u8], pos: usize, limit: usize) -> (r: usize)
    requires
        pos <= limit <= data@.len(),
    ensures
        r == spec_tok_end(data@, pos as int, limit as int),
        pos <= r <= limit,
{
    let mut j = pos;
    while j < limit && !(data[j] == 32 || data[j] == 9 || data[j] == 13)
        invariant
            pos <= j <= limit,
            limit <= data@.len(),
            spec_tok_end(data@, pos as int, limit as int) == spec_tok_end(
                data@,
                j as int,
                limit as int,
            ),
        decreases limit - j,
    {
        j = j + 1;
    }
    j
}

/// One hex digit's value, or none.
pub(crate) fn hex_val_of(b: u8) -> (r: Option<u8>)
    ensures
        match r {
            Some(v) => hex_val(b) == v && v < 16,
            None => hex_val(b) < 0,
        },
{
    if ('0' as u8) <= b && b <= ('9' as u8) {
        Some(b - ('0' as u8))
    } else if ('A' as u8) <= b && b <= ('F' as u8) {
        Some(b - ('A' as u8) + 10)
    } else if ('a' as u8) <= b && b <= ('f' as u8) {
        Some(b - ('a' as u8) + 10)
    } else {
        None
    }
}

/// Parses the token in `[pos, limit)` as a 16-bit hex value, as a
/// checked radix-16 parse does: an optional plus, hex digits, no
/// overflow.
fn parse_hex16_range(data: &[u8], pos: usize, limit: usize) -> (r: Option<u16>)
    requires
        pos <= limit <= data@.len(),
    ensures
        r == spec_parse_hex16(data@, pos as int, limit as int),
{
    if pos >= limit {
        return None;
    }
    let start = if data[pos] == ('+' as u8) {
        pos + 1
    } else {
        pos
    };
    if start >= limit {
        return None;
    }
    let mut acc: u16 = 0;
    let mut i = start;
    while i < limit
        invariant
            pos < limit <= data@.len(),
            start as int == (if data@[pos as int] == ('+' as u8) {
                pos + 1
            } else {
                pos as int
            }),
            start <= i <= limit,
            spec_hex_accum(data@, start as int, limit as int, 0) == spec_hex_accum(
                data@,
                i as int,
                limit as int,
                acc as int,
            ),
        decreases limit - i,
    {
        match hex_val_of(data[i]) {
            None => {
                return None;
            },
            Some(v) => {
                let next: u32 = acc as u32 * 16 + v as u32;
                if next > 0xFFFF {
                    return None;
                }
                acc = next as u16;
            },
        }
        i = i + 1;
    }
    Some(acc)
}

/// Space, tab and carriage return separate the fields of a symbol line.
pub open spec fn is_ws(b: u8) -> bool {
    b == 32 || b == 9 || b == 13
}

/// The index of the first line feed at or after `pos`, or the end.
pub open spec fn spec_line_end(d: Seq<u8>, pos: int) -> int
    decreases d.len() - pos,
{
    if pos < 0 || pos >= d.len() {
        pos
    } else if d[pos] == 10 {
        pos
    } else {
        spec_line_end(d, pos + 1)
    }
}

/// The index of the first non-whitespace byte in `[pos, limit)`, or the
/// limit.
pub open spec fn spec_skip_ws(d: Seq<u8>, pos: int, limit: int) -> int
    decreases limit - pos,
{
    if pos < 0 || pos >= limit {
        pos
    } else if is_ws(d[pos]) {
        spec_skip_ws(d, pos + 1, limit)
    } else {
        pos
    }
}

/// The index just past the token starting at `pos`: the first whitespace
/// byte in `[pos, limit)`, or the limit.
pub open spec fn spec_tok_end(d: Seq<u8>, pos: int, limit: int) -> int
    decreases limit - pos,
{
    if pos < 0 || pos >= limit {
        pos
    } else if is_ws(d[pos]) {
        pos
    } else {
        spec_tok_end(d, pos + 1, limit)
    }
}

/// The value of a hex digit byte, or -1.
pub open spec fn hex_val(b: u8) -> int {
    if ('0' as u8) <= b && b <= ('9' as u8) {
        b - ('0' as u8)
    } else if ('A' as u8) <= b && b <= ('F' as u8) {
        b - ('A' as u8) + 10
    } else if ('a' as u8) <= b && b <= ('f' as u8) {
        b - ('a' as u8) + 10
    } else {
        -1
    }
}

/// Left-to-right hex accumulation over `[pos, limit)` of `d`, starting
/// from `acc`; a non-digit or a value past 16 bits gives nothing, as a
/// checked 16-bit radix parse does.
pub open spec fn spec_hex_accum(d: Seq<u8>, pos: int, limit: int, acc: int) -> Option<u16>
    decreases limit - pos,
{
    if pos < 0 || pos >= limit || limit > d.len() {
        if 0 <= acc < 0x10000 {
            Some(acc as u16)
        } else {
            None
        }
    } else if hex_val(d[pos]) < 0 {
        None
    } else if acc * 16 + hex_val(d[pos]) > 0xFFFF {
        None
    } else {
        spec_hex_accum(d, pos + 1, limit, acc * 16 + hex_val(d[pos]))
    }
}

/// The 16-bit value the token in `[pos, limit)` parses to in base 16:
/// an optional leading plus, then hex digits, fitting in 16 bits.
pub open spec fn spec_parse_hex16(d: Seq<u8>, pos: int, limit: int) -> Option<u16> {
    if pos >= limit {
        None
    } else {
        let start = if d[pos] == ('+' as u8) {
            pos + 1
        } else {
            pos
        };
        if start >= limit {
            None
        } else {
            spec_hex_accum(d, start, limit, 0)
        }
    }
}

/// The entry one symbol line contributes: its first field parsed as a
/// hex address and its second field as the name, if both are there.
pub open spec fn spec_line_entry(d: Seq<u8>, pos: int, limit: int) -> Seq<(u16, Seq<u8>)> {
    let s0 = spec_skip_ws(d, pos, limit);
    if s0 >= limit {
        Seq::empty()
    } else {
        let e0 = spec_tok_end(d, s0, limit);
        let s1 = spec_skip_ws(d, e0, limit);
        if s1 >= limit {
            Seq::empty()
        } else {
            let e1 = spec_tok_end(d, s1, limit);
            match spec_parse_hex16(d, s0, e0) {
                None => Seq::empty(),
                Some(address) => seq![(address, d.subrange(s1, e1))],
            }
        }
    }
}

/// The entries a whole symbol file contributes, line by line; a later
/// line with the same address comes later in the sequence and wins.
pub open spec fn spec_symbols_from(d: Seq<u8>, pos: int) -> Seq<(u16, Seq<u8>)>
    decreases d.len() - pos,
{
    if pos < 0 || pos >= d.len() {
        Seq::empty()
    } else {
        let j0 = spec_line_end(d, pos);
        let j = if j0 < pos {
            pos
        } else {
            j0
        };
        let next = if j + 1 <= d.len() {
            j + 1
        } else {
            d.len() as int
        };
        spec_line_entry(d, pos, j) + spec_symbols_from(d, next)
    }
}

/// The name the table resolves an address to: the latest entry wins.
pub open spec fn spec_sym_lookup(syms: Seq<(u16, Seq<u8>)>, address: u16) -> Option<Seq<u8>>
    decreases syms.len(),
{
    if syms.len() == 0 {
        None
    } else if syms.last().0 == address {
        Some(syms.last().1)
    } else {
        spec_sym_lookup(syms.drop_last(), address)
    }
}

#[derive(Debug, Copy, Clone, PartialEq, Eq, Structural)]
pub enum AddressingMode {
    Implied,
    Accumulator,
    Immediate,
    ZeroPage,
    ZeroPageX,
    ZeroPageY,
    ZeroPageIndirect,
    Absolute,
    AbsoluteX,
    AbsoluteY,
    Indirect,
    IndirectX,
    IndirectY,
    Relative,
    IndirectAbsolute,
}

/// How many operand bytes follow the opcode byte in each addressing mode.
pub open spec fn spec_operand_bytes(mode: AddressingMode) -> int {
    match mode {
        AddressingMode::Implied => 0,
        AddressingMode::Accumulator => 0,
        AddressingMode::Immediate => 1,
        AddressingMode::ZeroPage => 1,
        AddressingMode::ZeroPageX => 1,
        AddressingMode::ZeroPageY => 1,
        AddressingMode::ZeroPageIndirect => 1,
        AddressingMode::Relative => 1,
        AddressingMode::IndirectX => 1,
        AddressingMode::IndirectY => 1,
        AddressingMode::Absolute => 2,
        AddressingMode::AbsoluteX => 2,
        AddressingMode::AbsoluteY => 2,
        AddressingMode::Indirect => 2,
        AddressingMode::IndirectAbsolute => 2,
    }
}

impl AddressingMode {
    pub fn operand_bytes(&self) -> (r: usize)
        ensures
            r == spec_operand_bytes(*self),
    {
        match self {
            AddressingMode::Implied | AddressingMode::Accumulator => 0,
            AddressingMode::Immediate
            | AddressingMode::ZeroPage
            | AddressingMode::ZeroPageX
            | AddressingMode::ZeroPageY
            | AddressingMode::ZeroPageIndirect
            | AddressingMode::Relative
            | AddressingMode::IndirectX
            | AddressingMode::IndirectY => 1,
            AddressingMode::Absolute
            | AddressingMode::AbsoluteX
            | AddressingMode::AbsoluteY
            | AddressingMode::Indirect
            | AddressingMode::IndirectAbsolute => 2,
        }
    }
}

/// Addressing modes of opcodes 0x00-0x0F.
pub open spec fn spec_mode_x0(op: u8) -> AddressingMode {
    if op == 0x00 {
        AddressingMode::Implied
    } else     if op == 0x01 {
        AddressingMode::IndirectX
    } else     if op == 0x02 {
        AddressingMode::Implied
    } else     if op == 0x03 {
        AddressingMode::Implied
    } else     if op == 0x04 {
        AddressingMode::ZeroPage
    } else     if op == 0x05 {
        AddressingMode::ZeroPage
    } else     if op == 0x06 {
        AddressingMode::ZeroPage
    } else     if op == 0x07 {
        AddressingMode::ZeroPage
    } else     if op == 0x08 {
        AddressingMode::Implied
    } else     if op == 0x09 {
        AddressingMode::Immediate
    } else     if op == 0x0A {
        AddressingMode::Accumulator
    } else     if op == 0x0B {
        AddressingMode::Implied
    } else     if op == 0x0C {
        AddressingMode::Absolute
    } else     if op == 0x0D {
        AddressingMode::Absolute
    } else     if op == 0x0E {
        AddressingMode::Absolute
    } else  {
        AddressingMode::ZeroPage
    }
}

/// Addressing modes of opcodes 0x10-0x1F.
pub open spec fn spec_mode_x1(op: u8) -> AddressingMode {
    if op == 0x10 {
        AddressingMode::Relative
    } else     if op == 0x11 {
        AddressingMode::IndirectY
    } else     if op == 0x12 {
        AddressingMode::ZeroPageIndirect
    } else     if op == 0x13 {
        AddressingMode::Implied
    } else     if op == 0x14 {
        AddressingMode::ZeroPage
    } else     if op == 0x15 {
        AddressingMode::ZeroPageX
    } else     if op == 0x16 {
        AddressingMode::ZeroPageX
    } else     if op == 0x17 {
        AddressingMode::ZeroPage
    } else     if op == 0x18 {
        AddressingMode::Implied
    } else     if op == 0x19 {
        AddressingMode::AbsoluteY
    } else     if op == 0x1A {
        AddressingMode::Implied
    } else     if op == 0x1B {
        AddressingMode::Implied
    } else     if op == 0x1C {
        AddressingMode::Absolute
    } else     if op == 0x1D {
        AddressingMode::AbsoluteX
    } else     if op == 0x1E {
        AddressingMode::AbsoluteX
    } else  {
        AddressingMode::ZeroPage
    }
}

/// Addressing modes of opcodes 0x20-0x2F.
pub open spec fn spec_mode_x2(op: u8) -> AddressingMode {
    if op == 0x20 {
        AddressingMode::Absolute
    } else     if op == 0x21 {
        AddressingMode::IndirectX
    } else     if op == 0x22 {
        AddressingMode::Implied
    } else     if op == 0x23 {
        AddressingMode::Implied
    } else     if op == 0x24 {
        AddressingMode::ZeroPage
    } else     if op == 0x25 {
        AddressingMode::ZeroPage
    } else     if op == 0x26 {
        AddressingMode::ZeroPage
    } else     if op == 0x27 {
        AddressingMode::ZeroPage
    } else     if op == 0x28 {
        AddressingMode::Implied
    } else     if op == 0x29 {
        AddressingMode::Immediate
    } else     if op == 0x2A {
        AddressingMode::Accumulator
    } else     if op == 0x2B {
        AddressingMode::Implied
    } else     if op == 0x2C {
        AddressingMode::Absolute
    } else     if op == 0x2D {
        AddressingMode::Absolute
    } else     if op == 0x2E {
        AddressingMode::Absolute
    } else  {
        AddressingMode::ZeroPage
    }
}

/// Addressing modes of opcodes 0x30-0x3F.
pub open spec fn spec_mode_x3(op: u8) -> AddressingMode {
    if op == 0x30 {
        AddressingMode::Relative
    } else     if op == 0x31 {
        AddressingMode::IndirectY
    } else     if op == 0x32 {
        AddressingMode::ZeroPageIndirect
    } else     if op == 0x33 {
        AddressingMode::Implied
    } else     if op == 0x34 {
        AddressingMode::ZeroPageX
    } else     if op == 0x35 {
        AddressingMode::ZeroPageX
    } else     if op == 0x36 {
        AddressingMode::ZeroPageX
    } else     if op == 0x37 {
        AddressingMode::ZeroPage
    } else     if op == 0x38 {
        AddressingMode::Implied
    } else     if op == 0x39 {
        AddressingMode::AbsoluteY
    } else     if op == 0x3A {
        AddressingMode::Implied
    } else     if op == 0x3B {
        AddressingMode::Implied
    } else     if op == 0x3C {
        AddressingMode::AbsoluteX
    } else     if op == 0x3D {
        AddressingMode::AbsoluteX
    } else     if op == 0x3E {
        AddressingMode::AbsoluteX
    } else  {
        AddressingMode::ZeroPage
    }
}

/// Addressing modes of opcodes 0x40-0x4F.
pub open spec fn spec_mode_x4(op: u8) -> AddressingMode {
    if op == 0x40 {
        AddressingMode::Implied
    } else     if op == 0x41 {
        AddressingMode::IndirectX
    } else     if op == 0x42 {
        AddressingMode::Implied
    } else     if op == 0x43 {
        AddressingMode::Implied
    } else     if op == 0x44 {
        AddressingMode::Implied
    } else     if op == 0x45 {
        AddressingMode::ZeroPage
    } else     if op == 0x46 {
        AddressingMode::ZeroPage
    } else     if op == 0x47 {
        AddressingMode::ZeroPage
    } else     if op == 0x48 {
        AddressingMode::Implied
    } else     if op == 0x49 {
        AddressingMode::Immediate
    } else     if op == 0x4A {
        AddressingMode::Accumulator
    } else     if op == 0x4B {
        AddressingMode::Implied
    } else     if op == 0x4C {
        AddressingMode::Absolute
    } else     if op == 0x4D {
        AddressingMode::Absolute
    } else     if op == 0x4E {
        AddressingMode::Absolute
    } else  {
        AddressingMode::ZeroPage
    }
}

/// Addressing modes of opcodes 0x50-0x5F.
pub open spec fn spec_mode_x5(op: u8) -> AddressingMode {
    if op == 0x50 {
        AddressingMode::Relative
    } else     if op == 0x51 {
        AddressingMode::IndirectY
    } else     if op == 0x52 {
        AddressingMode::ZeroPageIndirect
    } else     if op == 0x53 {
        AddressingMode::Implied
    } else     if op == 0x54 {
        AddressingMode::Implied
    } else     if op == 0x55 {
        AddressingMode::ZeroPageX
    } else     if op == 0x56 {
        AddressingMode::ZeroPageX
    } else     if op == 0x57 {
        AddressingMode::ZeroPage
    } else     if op == 0x58 {
        AddressingMode::Implied
    } else     if op == 0x59 {
        AddressingMode::AbsoluteY
    } else     if op == 0x5A {
        AddressingMode::Implied
    } else     if op == 0x5B {
        AddressingMode::Implied
    } else     if op == 0x5C {
        AddressingMode::IndirectAbsolute
    } else     if op == 0x5D {
        AddressingMode::AbsoluteX
    } else     if op == 0x5E {
        AddressingMode::AbsoluteX
    } else  {
        AddressingMode::ZeroPage
    }
}

/// Addressing modes of opcodes 0x60-0x6F.
pub open spec fn spec_mode_x6(op: u8) -> AddressingMode {
    if op == 0x60 {
        AddressingMode::Implied
    } else     if op == 0x61 {
        AddressingMode::IndirectX
    } else     if op == 0x62 {
        AddressingMode::Implied
    } else     if op == 0x63 {
        AddressingMode::Implied
    } else     if op == 0x64 {
        AddressingMode::ZeroPage
    } else     if op == 0x65 {
        AddressingMode::ZeroPage
    } else     if op == 0x66 {
        AddressingMode::ZeroPage
    } else     if op == 0x67 {
        AddressingMode::ZeroPage
    } else     if op == 0x68 {
        AddressingMode::Implied
    } else     if op == 0x69 {
        AddressingMode::Immediate
    } else     if op == 0x6A {
        AddressingMode::Accumulator
    } else     if op == 0x6B {
        AddressingMode::Implied
    } else     if op == 0x6C {
        AddressingMode::Indirect
    } else     if op == 0x6D {
        AddressingMode::Absolute
    } else     if op == 0x6E {
        AddressingMode::Absolute
    } else  {
        AddressingMode::ZeroPage
    }
}

/// Addressing modes of opcodes 0x70-0x7F.
pub open spec fn spec_mode_x7(op: u8) -> AddressingMode {
    if op == 0x70 {
        AddressingMode::Relative
    } else     if op == 0x71 {
        AddressingMode::IndirectY
    } else     if op == 0x72 {
        AddressingMode::ZeroPageIndirect
    } else     if op == 0x73 {
        AddressingMode::Implied
    } else     if op == 0x74 {
        AddressingMode::ZeroPageX
    } else     if op == 0x75 {
        AddressingMode::ZeroPageX
    } else     if op == 0x76 {
        AddressingMode::ZeroPageX
    } else     if op == 0x77 {
        AddressingMode::ZeroPage
    } else     if op == 0x78 {
        AddressingMode::Implied
    } else     if op == 0x79 {
        AddressingMode::AbsoluteY
    } else     if op == 0x7A {
        AddressingMode::Implied
    } else     if op == 0x7B {
        AddressingMode::Implied
    } else     if op == 0x7C {
        AddressingMode::IndirectAbsolute
    } else     if op == 0x7D {
        AddressingMode::AbsoluteX
    } else     if op == 0x7E {
        AddressingMode::AbsoluteX
    } else  {
        AddressingMode::ZeroPage
    }
}

/// Addressing modes of opcodes 0x80-0x8F.
pub open spec fn spec_mode_x8(op: u8) -> AddressingMode {
    if op == 0x80 {
        AddressingMode::Relative
    } else     if op == 0x81 {
        AddressingMode::IndirectX
    } else     if op == 0x82 {
        AddressingMode::Implied
    } else     if op == 0x83 {
        AddressingMode::Implied
    } else     if op == 0x84 {
        AddressingMode::ZeroPage
    } else     if op == 0x85 {
        AddressingMode::ZeroPage
    } else     if op == 0x86 {
        AddressingMode::ZeroPage
    } else     if op == 0x87 {
        AddressingMode::ZeroPage
    } else     if op == 0x88 {
        AddressingMode::Implied
    } else     if op == 0x89 {
        AddressingMode::Immediate
    } else     if op == 0x8A {
        AddressingMode::Implied
    } else     if op == 0x8B {
        AddressingMode::Implied
    } else     if op == 0x8C {
        AddressingMode::Absolute
    } else     if op == 0x8D {
        AddressingMode::Absolute
    } else     if op == 0x8E {
        AddressingMode::Absolute
    } else  {
        AddressingMode::ZeroPage
    }
}

/// Addressing modes of opcodes 0x90-0x9F.
pub open spec fn spec_mode_x9(op: u8) -> AddressingMode {
    if op == 0x90 {
        AddressingMode::Relative
    } else     if op == 0x91 {
        AddressingMode::IndirectY
    } else     if op == 0x92 {
        AddressingMode::ZeroPageIndirect
    } else     if op == 0x93 {
        AddressingMode::Implied
    } else     if op == 0x94 {
        AddressingMode::ZeroPageX
    } else     if op == 0x95 {
        AddressingMode::ZeroPageX
    } else     if op == 0x96 {
        AddressingMode::ZeroPageY
    } else     if op == 0x97 {
        AddressingMode::ZeroPage
    } else     if op == 0x98 {
        AddressingMode::Implied
    } else     if op == 0x99 {
        AddressingMode::AbsoluteY
    } else     if op == 0x9A {
        AddressingMode::Implied
    } else     if op == 0x9B {
        AddressingMode::Implied
    } else     if op == 0x9C {
        AddressingMode::Absolute
    } else     if op == 0x9D {
        AddressingMode::AbsoluteX
    } else     if op == 0x9E {
        AddressingMode::AbsoluteX
    } else  {
        AddressingMode::ZeroPage
    }
}

/// Addressing modes of opcodes 0xA0-0xAF.
pub open spec fn spec_mode_xa(op: u8) -> AddressingMode {
    if op == 0xA0 {
        AddressingMode::Immediate
    } else     if op == 0xA1 {
        AddressingMode::IndirectX
    } else     if op == 0xA2 {
        AddressingMode::Immediate
    } else     if op == 0xA3 {
        AddressingMode::Implied
    } else     if op == 0xA4 {
        AddressingMode::ZeroPage
    } else     if op == 0xA5 {
        AddressingMode::ZeroPage
    } else     if op == 0xA6 {
        AddressingMode::ZeroPage
    } else     if op == 0xA7 {
        AddressingMode::ZeroPage
    } else     if op == 0xA8 {
        AddressingMode::Implied
    } else     if op == 0xA9 {
        AddressingMode::Immediate
    } else     if op == 0xAA {
        AddressingMode::Implied
    } else     if op == 0xAB {
        AddressingMode::Implied
    } else     if op == 0xAC {
        AddressingMode::Absolute
    } else     if op == 0xAD {
        AddressingMode::Absolute
    } else     if op == 0xAE {
        AddressingMode::Absolute
    } else  {
        AddressingMode::ZeroPage
    }
}

/// Addressing modes of opcodes 0xB0-0xBF.
pub open spec fn spec_mode_xb(op: u8) -> AddressingMode {
    if op == 0xB0 {
        AddressingMode::Relative
    } else     if op == 0xB1 {
        AddressingMode::IndirectY
    } else     if op == 0xB2 {
        AddressingMode::ZeroPageIndirect
    } else     if op == 0xB3 {
        AddressingMode::Implied
    } else     if op == 0xB4 {
        AddressingMode::ZeroPageX
    } else     if op == 0xB5 {
        AddressingMode::ZeroPageX
    } else     if op == 0xB6 {
        AddressingMode::ZeroPageY
    } else     if op == 0xB7 {
        AddressingMode::ZeroPage
    } else     if op == 0xB8 {
        AddressingMode::Implied
    } else     if op == 0xB9 {
        AddressingMode::AbsoluteY
    } else     if op == 0xBA {
        AddressingMode::Implied
    } else     if op == 0xBB {
        AddressingMode::Implied
    } else     if op == 0xBC {
        AddressingMode::AbsoluteX
    } else     if op == 0xBD {
        AddressingMode::AbsoluteX
    } else     if op == 0xBE {
        AddressingMode::AbsoluteY
    } else  {
        AddressingMode::ZeroPage
    }
}

/// Addressing modes of opcodes 0xC0-0xCF.
pub open spec fn spec_mode_xc(op: u8) -> AddressingMode {
    if op == 0xC0 {
        AddressingMode::Immediate
    } else     if op == 0xC1 {
        AddressingMode::IndirectX
    } else     if op == 0xC2 {
        AddressingMode::Implied
    } else     if op == 0xC3 {
        AddressingMode::Implied
    } else     if op == 0xC4 {
        AddressingMode::ZeroPage
    } else     if op == 0xC5 {
        AddressingMode::ZeroPage
    } else     if op == 0xC6 {
        AddressingMode::ZeroPage
    } else     if op == 0xC7 {
        AddressingMode::ZeroPage
    } else     if op == 0xC8 {
        AddressingMode::Implied
    } else     if op == 0xC9 {
        AddressingMode::Immediate
    } else     if op == 0xCA {
        AddressingMode::Implied
    } else     if op == 0xCB {
        AddressingMode::Implied
    } else     if op == 0xCC {
        AddressingMode::Absolute
    } else     if op == 0xCD {
        AddressingMode::Absolute
    } else     if op == 0xCE {
        AddressingMode::Absolute
    } else  {
        AddressingMode::ZeroPage
    }
}

/// Addressing modes of opcodes 0xD0-0xDF.
pub open spec fn spec_mode_xd(op: u8) -> AddressingMode {
    if op == 0xD0 {
        AddressingMode::Relative
    } else     if op == 0xD1 {
        AddressingMode::IndirectY
    } else     if op == 0xD2 {
        AddressingMode::ZeroPageIndirect
    } else     if op == 0xD3 {
        AddressingMode::Implied
    } else     if op == 0xD4 {
        AddressingMode::Implied
    } else     if op == 0xD5 {
        AddressingMode::ZeroPageX
    } else     if op == 0xD6 {
        AddressingMode::ZeroPageX
    } else     if op == 0xD7 {
        AddressingMode::ZeroPage
    } else     if op == 0xD8 {
        AddressingMode::Implied
    } else     if op == 0xD9 {
        AddressingMode::AbsoluteY
    } else     if op == 0xDA {
        AddressingMode::Implied
    } else     if op == 0xDB {
        AddressingMode::Implied
    } else     if op == 0xDC {
        AddressingMode::Implied
    } else     if op == 0xDD {
        AddressingMode::AbsoluteX
    } else     if op == 0xDE {
        AddressingMode::AbsoluteX
    } else  {
        AddressingMode::ZeroPage
    }
}

/// Addressing modes of opcodes 0xE0-0xEF.
pub open spec fn spec_mode_xe(op: u8) -> AddressingMode {
    if op == 0xE0 {
        AddressingMode::Immediate
    } else     if op == 0xE1 {
        AddressingMode::IndirectX
    } else     if op == 0xE2 {
        AddressingMode::Implied
    } else     if op == 0xE3 {
        AddressingMode::Implied
    } else     if op == 0xE4 {
        AddressingMode::ZeroPage
    } else     if op == 0xE5 {
        AddressingMode::ZeroPage
    } else     if op == 0xE6 {
        AddressingMode::ZeroPage
    } else     if op == 0xE7 {
        AddressingMode::ZeroPage
    } else     if op == 0xE8 {
        AddressingMode::Implied
    } else     if op == 0xE9 {
        AddressingMode::Immediate
    } else     if op == 0xEA {
        AddressingMode::Implied
    } else     if op == 0xEB {
        AddressingMode::Implied
    } else     if op == 0xEC {
        AddressingMode::Absolute
    } else     if op == 0xED {
        AddressingMode::Absolute
    } else     if op == 0xEE {
        AddressingMode::Absolute
    } else  {
        AddressingMode::ZeroPage
    }
}

/// Addressing modes of opcodes 0xF0-0xFF.
pub open spec fn spec_mode_xf(op: u8) -> AddressingMode {
    if op == 0xF0 {
        AddressingMode::Relative
    } else     if op == 0xF1 {
        AddressingMode::IndirectY
    } else     if op == 0xF2 {
        AddressingMode::ZeroPageIndirect
    } else     if op == 0xF3 {
        AddressingMode::Implied
    } else     if op == 0xF4 {
        AddressingMode::Implied
    } else     if op == 0xF5 {
        AddressingMode::ZeroPageX
    } else     if op == 0xF6 {
        AddressingMode::ZeroPageX
    } else     if op == 0xF7 {
        AddressingMode::ZeroPage
    } else     if op == 0xF8 {
        AddressingMode::Implied
    } else     if op == 0xF9 {
        AddressingMode::AbsoluteY
    } else     if op == 0xFA {
        AddressingMode::Implied
    } else     if op == 0xFB {
        AddressingMode::Implied
    } else     if op == 0xFC {
        AddressingMode::Implied
    } else     if op == 0xFD {
        AddressingMode::AbsoluteX
    } else     if op == 0xFE {
        AddressingMode::AbsoluteX
    } else  {
        AddressingMode::Implied
    }
}

/// The addressing mode the opcode table assigns to each opcode.
pub open spec fn spec_opcode_mode(op: u8) -> AddressingMode {
    if op < 0x10 {
        spec_mode_x0(op)
    } else if op < 0x20 {
        spec_mode_x1(op)
    } else if op < 0x30 {
        spec_mode_x2(op)
    } else if op < 0x40 {
        spec_mode_x3(op)
    } else if op < 0x50 {
        spec_mode_x4(op)
    } else if op < 0x60 {
        spec_mode_x5(op)
    } else if op < 0x70 {
        spec_mode_x6(op)
    } else if op < 0x80 {
        spec_mode_x7(op)
    } else if op < 0x90 {
        spec_mode_x8(op)
    } else if op < 0xA0 {
        spec_mode_x9(op)
    } else if op < 0xB0 {
        spec_mode_xa(op)
    } else if op < 0xC0 {
        spec_mode_xb(op)
    } else if op < 0xD0 {
        spec_mode_xc(op)
    } else if op < 0xE0 {
        spec_mode_xd(op)
    } else if op < 0xF0 {
        spec_mode_xe(op)
    } else {
        spec_mode_xf(op)
    }
}

/// Mnemonics of opcodes 0x00-0x0F.
pub open spec fn spec_mnemonic_x0(op: u8) -> Seq<char> {
    if op == 0x00 {
        "BRK"@
    } else     if op == 0x01 {
        "ORA"@
    } else     if op == 0x02 {
        "KIL"@
    } else     if op == 0x03 {
        "KIL"@
    } else     if op == 0x04 {
        "TSB"@
    } else     if op == 0x05 {
        "ORA"@
    } else     if op == 0x06 {
        "ASL"@
    } else     if op == 0x07 {
        "RMB0"@
    } else     if op == 0x08 {
        "PHP"@
    } else     if op == 0x09 {
        "ORA"@
    } else     if op == 0x0A {
        "ASL"@
    } else     if op == 0x0B {
        "NOP"@
    } else     if op == 0x0C {
        "TSB"@
    } else     if op == 0x0D {
        "ORA"@
    } else     if op == 0x0E {
        "ASL"@
    } else  {
        "BBR0"@
    }
}

/// Mnemonics of opcodes 0x10-0x1F.
pub open spec fn spec_mnemonic_x1(op: u8) -> Seq<char> {
    if op == 0x10 {
        "BPL"@
    } else     if op == 0x11 {
        "ORA"@
    } else     if op == 0x12 {
        "ORA"@
    } else     if op == 0x13 {
        "NOP"@
    } else     if op == 0x14 {
        "TRB"@
    } else     if op == 0x15 {
        "ORA"@
    } else     if op == 0x16 {
        "ASL"@
    } else     if op == 0x17 {
        "RMB1"@
    } else     if op == 0x18 {
        "CLC"@
    } else     if op == 0x19 {
        "ORA"@
    } else     if op == 0x1A {
        "INA"@
    } else     if op == 0x1B {
        "NOP"@
    } else     if op == 0x1C {
        "TRB"@
    } else     if op == 0x1D {
        "ORA"@
    } else     if op == 0x1E {
        "ASL"@
    } else  {
        "BBR1"@
    }
}

/// Mnemonics of opcodes 0x20-0x2F.
pub open spec fn spec_mnemonic_x2(op: u8) -> Seq<char> {
    if op == 0x20 {
        "JSR"@
    } else     if op == 0x21 {
        "AND"@
    } else     if op == 0x22 {
        "KIL"@
    } else     if op == 0x23 {
        "NOP"@
    } else     if op == 0x24 {
        "BIT"@
    } else     if op == 0x25 {
        "AND"@
    } else     if op == 0x26 {
        "ROL"@
    } else     if op == 0x27 {
        "RMB2"@
    } else     if op == 0x28 {
        "PLP"@
    } else     if op == 0x29 {
        "AND"@
    } else     if op == 0x2A {
        "ROL"@
    } else     if op == 0x2B {
        "NOP"@
    } else     if op == 0x2C {
        "BIT"@
    } else     if op == 0x2D {
        "AND"@
    } else     if op == 0x2E {
        "ROL"@
    } else  {
        "BBR2"@
    }
}

/// Mnemonics of opcodes 0x30-0x3F.
pub open spec fn spec_mnemonic_x3(op: u8) -> Seq<char> {
    if op == 0x30 {
        "BMI"@
    } else     if op == 0x31 {
        "AND"@
    } else     if op == 0x32 {
        "AND"@
    } else     if op == 0x33 {
        "NOP"@
    } else     if op == 0x34 {
        "BIT"@
    } else     if op == 0x35 {
        "AND"@
    } else     if op == 0x36 {
        "ROL"@
    } else     if op == 0x37 {
        "RMB3"@
    } else     if op == 0x38 {
        "SEC"@
    } else     if op == 0x39 {
        "AND"@
    } else     if op == 0x3A {
        "DEA"@
    } else     if op == 0x3B {
        "NOP"@
    } else     if op == 0x3C {
        "BIT"@
    } else     if op == 0x3D {
        "AND"@
    } else     if op == 0x3E {
        "ROL"@
    } else  {
        "BBR3"@
    }
}

/// Mnemonics of opcodes 0x40-0x4F.
pub open spec fn spec_mnemonic_x4(op: u8) -> Seq<char> {
    if op == 0x40 {
        "RTI"@
    } else     if op == 0x41 {
        "EOR"@
    } else     if op == 0x42 {
        "KIL"@
    } else     if op == 0x43 {
        "NOP"@
    } else     if op == 0x44 {
        "NOP"@
    } else     if op == 0x45 {
        "EOR"@
    } else     if op == 0x46 {
        "LSR"@
    } else     if op == 0x47 {
        "RMB4"@
    } else     if op == 0x48 {
        "PHA"@
    } else     if op == 0x49 {
        "EOR"@
    } else     if op == 0x4A {
        "LSR"@
    } else     if op == 0x4B {
        "NOP"@
    } else     if op == 0x4C {
        "JMP"@
    } else     if op == 0x4D {
        "EOR"@
    } else     if op == 0x4E {
        "LSR"@
    } else  {
        "BBR4"@
    }
}

/// Mnemonics of opcodes 0x50-0x5F.
pub open spec fn spec_mnemonic_x5(op: u8) -> Seq<char> {
    if op == 0x50 {
        "BVC"@
    } else     if op == 0x51 {
        "EOR"@
    } else     if op == 0x52 {
        "EOR"@
    } else     if op == 0x53 {
        "NOP"@
    } else     if op == 0x54 {
        "NOP"@
    } else     if op == 0x55 {
        "EOR"@
    } else     if op == 0x56 {
        "LSR"@
    } else     if op == 0x57 {
        "RMB5"@
    } else     if op == 0x58 {
        "CLI"@
    } else     if op == 0x59 {
        "EOR"@
    } else     if op == 0x5A {
        "PHY"@
    } else     if op == 0x5B {
        "NOP"@
    } else     if op == 0x5C {
        "JMP"@
    } else     if op == 0x5D {
        "EOR"@
    } else     if op == 0x5E {
        "LSR"@
    } else  {
        "BBR5"@
    }
}

/// Mnemonics of opcodes 0x60-0x6F.
pub open spec fn spec_mnemonic_x6(op: u8) -> Seq<char> {
    if op == 0x60 {
        "RTS"@
    } else     if op == 0x61 {
        "ADC"@
    } else     if op == 0x62 {
        "KIL"@
    } else     if op == 0x63 {
        "NOP"@
    } else     if op == 0x64 {
        "STZ"@
    } else     if op == 0x65 {
        "ADC"@
    } else     if op == 0x66 {
        "ROR"@
    } else     if op == 0x67 {
        "RMB6"@
    } else     if op == 0x68 {
        "PLA"@
    } else     if op == 0x69 {
        "ADC"@
    } else     if op == 0x6A {
        "ROR"@
    } else     if op == 0x6B {
        "NOP"@
    } else     if op == 0x6C {
        "JMP"@
    } else     if op == 0x6D {
        "ADC"@
    } else     if op == 0x6E {
        "ROR"@
    } else  {
        "BBR6"@
    }
}

/// Mnemonics of opcodes 0x70-0x7F.
pub open spec fn spec_mnemonic_x7(op: u8) -> Seq<char> {
    if op == 0x70 {
        "BVS"@
    } else     if op == 0x71 {
        "ADC"@
    } else     if op == 0x72 {
        "ADC"@
    } else     if op == 0x73 {
        "NOP"@
    } else     if op == 0x74 {
        "STZ"@
    } else     if op == 0x75 {
        "ADC"@
    } else     if op == 0x76 {
        "ROR"@
    } else     if op == 0x77 {
        "RMB7"@
    } else     if op == 0x78 {
        "SEI"@
    } else     if op == 0x79 {
        "ADC"@
    } else     if op == 0x7A {
        "PLY"@
    } else     if op == 0x7B {
        "NOP"@
    } else     if op == 0x7C {
        "JMP"@
    } else     if op == 0x7D {
        "ADC"@
    } else     if op == 0x7E {
        "ROR"@
    } else  {
        "BBR7"@
    }
}

/// Mnemonics of opcodes 0x80-0x8F.
pub open spec fn spec_mnemonic_x8(op: u8) -> Seq<char> {
    if op == 0x80 {
        "BRA"@
    } else     if op == 0x81 {
        "STA"@
    } else     if op == 0x82 {
        "NOP"@
    } else     if op == 0x83 {
        "NOP"@
    } else     if op == 0x84 {
        "STY"@
    } else     if op == 0x85 {
        "STA"@
    } else     if op == 0x86 {
        "STX"@
    } else     if op == 0x87 {
        "SMB0"@
    } else     if op == 0x88 {
        "DEY"@
    } else     if op == 0x89 {
        "BIT"@
    } else     if op == 0x8A {
        "TXA"@
    } else     if op == 0x8B {
        "NOP"@
    } else     if op == 0x8C {
        "STY"@
    } else     if op == 0x8D {
        "STA"@
    } else     if op == 0x8E {
        "STX"@
    } else  {
        "BBS0"@
    }
}

/// Mnemonics of opcodes 0x90-0x9F.
pub open spec fn spec_mnemonic_x9(op: u8) -> Seq<char> {
    if op == 0x90 {
        "BCC"@
    } else     if op == 0x91 {
        "STA"@
    } else     if op == 0x92 {
        "STA"@
    } else     if op == 0x93 {
        "NOP"@
    } else     if op == 0x94 {
        "STY"@
    } else     if op == 0x95 {
        "STA"@
    } else     if op == 0x96 {
        "STX"@
    } else     if op == 0x97 {
        "SMB1"@
    } else     if op == 0x98 {
        "TYA"@
    } else     if op == 0x99 {
        "STA"@
    } else     if op == 0x9A {
        "TXS"@
    } else     if op == 0x9B {
        "NOP"@
    } else     if op == 0x9C {
        "STZ"@
    } else     if op == 0x9D {
        "STA"@
    } else     if op == 0x9E {
        "STZ"@
    } else  {
        "BBS1"@
    }
}

/// Mnemonics of opcodes 0xA0-0xAF.
pub open spec fn spec_mnemonic_xa(op: u8) -> Seq<char> {
    if op == 0xA0 {
        "LDY"@
    } else     if op == 0xA1 {
        "LDA"@
    } else     if op == 0xA2 {
        "LDX"@
    } else     if op == 0xA3 {
        "NOP"@
    } else     if op == 0xA4 {
        "LDY"@
    } else     if op == 0xA5 {
        "LDA"@
    } else     if op == 0xA6 {
        "LDX"@
    } else     if op == 0xA7 {
        "SMB2"@
    } else     if op == 0xA8 {
        "TAY"@
    } else     if op == 0xA9 {
        "LDA"@
    } else     if op == 0xAA {
        "TAX"@
    } else     if op == 0xAB {
        "NOP"@
    } else     if op == 0xAC {
        "LDY"@
    } else     if op == 0xAD {
        "LDA"@
    } else     if op == 0xAE {
        "LDX"@
    } else  {
        "BBS2"@
    }
}

/// Mnemonics of opcodes 0xB0-0xBF.
pub open spec fn spec_mnemonic_xb(op: u8) -> Seq<char> {
    if op == 0xB0 {
        "BCS"@
    } else     if op == 0xB1 {
        "LDA"@
    } else     if op == 0xB2 {
        "LDA"@
    } else     if op == 0xB3 {
        "NOP"@
    } else     if op == 0xB4 {
        "LDY"@
    } else     if op == 0xB5 {
        "LDA"@
    } else     if op == 0xB6 {
        "LDX"@
    } else     if op == 0xB7 {
        "SMB3"@
    } else     if op == 0xB8 {
        "CLV"@
    } else     if op == 0xB9 {
        "LDA"@
    } else     if op == 0xBA {
        "TSX"@
    } else     if op == 0xBB {
        "NOP"@
    } else     if op == 0xBC {
        "LDY"@
    } else     if op == 0xBD {
        "LDA"@
    } else     if op == 0xBE {
        "LDX"@
    } else  {
        "BBS3"@
    }
}

/// Mnemonics of opcodes 0xC0-0xCF.
pub open spec fn spec_mnemonic_xc(op: u8) -> Seq<char> {
    if op == 0xC0 {
        "CPY"@
    } else     if op == 0xC1 {
        "CMP"@
    } else     if op == 0xC2 {
        "NOP"@
    } else     if op == 0xC3 {
        "NOP"@
    } else     if op == 0xC4 {
        "CPY"@
    } else     if op == 0xC5 {
        "CMP"@
    } else     if op == 0xC6 {
        "DEC"@
    } else     if op == 0xC7 {
        "SMB4"@
    } else     if op == 0xC8 {
        "INY"@
    } else     if op == 0xC9 {
        "CMP"@
    } else     if op == 0xCA {
        "DEX"@
    } else     if op == 0xCB {
        "WAI"@
    } else     if op == 0xCC {
        "CPY"@
    } else     if op == 0xCD {
        "CMP"@
    } else     if op == 0xCE {
        "DEC"@
    } else  {
        "BBS4"@
    }
}

/// Mnemonics of opcodes 0xD0-0xDF.
pub open spec fn spec_mnemonic_xd(op: u8) -> Seq<char> {
    if op == 0xD0 {
        "BNE"@
    } else     if op == 0xD1 {
        "CMP"@
    } else     if op == 0xD2 {
        "CMP"@
    } else     if op == 0xD3 {
        "NOP"@
    } else     if op == 0xD4 {
        "NOP"@
    } else     if op == 0xD5 {
        "CMP"@
    } else     if op == 0xD6 {
        "DEC"@
    } else     if op == 0xD7 {
        "SMB5"@
    } else     if op == 0xD8 {
        "CLD"@
    } else     if op == 0xD9 {
        "CMP"@
    } else     if op == 0xDA {
        "PHX"@
    } else     if op == 0xDB {
        "STP"@
    } else     if op == 0xDC {
        "NOP"@
    } else     if op == 0xDD {
        "CMP"@
    } else     if op == 0xDE {
        "DEC"@
    } else  {
        "BBS5"@
    }
}

/// Mnemonics of opcodes 0xE0-0xEF.
pub open spec fn spec_mnemonic_xe(op: u8) -> Seq<char> {
    if op == 0xE0 {
        "CPX"@
    } else     if op == 0xE1 {
        "SBC"@
    } else     if op == 0xE2 {
        "NOP"@
    } else     if op == 0xE3 {
        "NOP"@
    } else     if op == 0xE4 {
        "CPX"@
    } else     if op == 0xE5 {
        "SBC"@
    } else     if op == 0xE6 {
        "INC"@
    } else     if op == 0xE7 {
        "SMB6"@
    } else     if op == 0xE8 {
        "INX"@
    } else     if op == 0xE9 {
        "SBC"@
    } else     if op == 0xEA {
        "NOP"@
    } else     if op == 0xEB {
        "NOP"@
    } else     if op == 0xEC {
        "CPX"@
    } else     if op == 0xED {
        "SBC"@
    } else     if op == 0xEE {
        "INC"@
    } else  {
        "BBS6"@
    }
}

/// Mnemonics of opcodes 0xF0-0xFF.
pub open spec fn spec_mnemonic_xf(op: u8) -> Seq<char> {
    if op == 0xF0 {
        "BEQ"@
    } else     if op == 0xF1 {
        "SBC"@
    } else     if op == 0xF2 {
        "SBC"@
    } else     if op == 0xF3 {
        "NOP"@
    } else     if op == 0xF4 {
        "NOP"@
    } else     if op == 0xF5 {
        "SBC"@
    } else     if op == 0xF6 {
        "INC"@
    } else     if op == 0xF7 {
        "SMB7"@
    } else     if op == 0xF8 {
        "SED"@
    } else     if op == 0xF9 {
        "SBC"@
    } else     if op == 0xFA {
        "PLX"@
    } else     if op == 0xFB {
        "NOP"@
    } else     if op == 0xFC {
        "NOP"@
    } else     if op == 0xFD {
        "SBC"@
    } else     if op == 0xFE {
        "INC"@
    } else  {
        "NOP"@
    }
}

/// The mnemonic the opcode table assigns to each opcode.
pub open spec fn spec_opcode_mnemonic(op: u8) -> Seq<char> {
    if op < 0x10 {
        spec_mnemonic_x0(op)
    } else if op < 0x20 {
        spec_mnemonic_x1(op)
    } else if op < 0x30 {
        spec_mnemonic_x2(op)
    } else if op < 0x40 {
        spec_mnemonic_x3(op)
    } else if op < 0x50 {
        spec_mnemonic_x4(op)
    } else if op < 0x60 {
        spec_mnemonic_x5(op)
    } else if op < 0x70 {
        spec_mnemonic_x6(op)
    } else if op < 0x80 {
        spec_mnemonic_x7(op)
    } else if op < 0x90 {
        spec_mnemonic_x8(op)
    } else if op < 0xA0 {
        spec_mnemonic_x9(op)
    } else if op < 0xB0 {
        spec_mnemonic_xa(op)
    } else if op < 0xC0 {
        spec_mnemonic_xb(op)
    } else if op < 0xD0 {
        spec_mnemonic_xc(op)
    } else if op < 0xE0 {
        spec_mnemonic_xd(op)
    } else if op < 0xF0 {
        spec_mnemonic_xe(op)
    } else {
        spec_mnemonic_xf(op)
    }
}

/// Every mnemonic in the opcode table is a short ASCII word.
pub proof fn lemma_mnemonic_ascii(op: u8)
    ensures
        vstd::utf8::is_ascii_chars(spec_opcode_mnemonic(op)),
        1 <= spec_opcode_mnemonic(op).len() <= 4,
{
    reveal_strlit("ADC");
    reveal_strlit("AND");
    reveal_strlit("ASL");
    reveal_strlit("BBR0");
    reveal_strlit("BBR1");
    reveal_strlit("BBR2");
    reveal_strlit("BBR3");
    reveal_strlit("BBR4");
    reveal_strlit("BBR5");
    reveal_strlit("BBR6");
    reveal_strlit("BBR7");
    reveal_strlit("BBS0");
    reveal_strlit("BBS1");
    reveal_strlit("BBS2");
    reveal_strlit("BBS3");
    reveal_strlit("BBS4");
    reveal_strlit("BBS5");
    reveal_strlit("BBS6");
    reveal_strlit("BCC");
    reveal_strlit("BCS");
    reveal_strlit("BEQ");
    reveal_strlit("BIT");
    reveal_strlit("BMI");
    reveal_strlit("BNE");
    reveal_strlit("BPL");
    reveal_strlit("BRA");
    reveal_strlit("BRK");
    reveal_strlit("BVC");
    reveal_strlit("BVS");
    reveal_strlit("CLC");
    reveal_strlit("CLD");
    reveal_strlit("CLI");
    reveal_strlit("CLV");
    reveal_strlit("CMP");
    reveal_strlit("CPX");
    reveal_strlit("CPY");
    reveal_strlit("DEA");
    reveal_strlit("DEC");
    reveal_strlit("DEX");
    reveal_strlit("DEY");
    reveal_strlit("EOR");
    reveal_strlit("INA");
    reveal_strlit("INC");
    reveal_strlit("INX");
    reveal_strlit("INY");
    reveal_strlit("JMP");
    reveal_strlit("JSR");
    reveal_strlit("KIL");
    reveal_strlit("LDA");
    reveal_strlit("LDX");
    reveal_strlit("LDY");
    reveal_strlit("LSR");
    reveal_strlit("NOP");
    reveal_strlit("ORA");
    reveal_strlit("PHA");
    reveal_strlit("PHP");
    reveal_strlit("PHX");
    reveal_strlit("PHY");
    reveal_strlit("PLA");
    reveal_strlit("PLP");
    reveal_strlit("PLX");
    reveal_strlit("PLY");
    reveal_strlit("RMB0");
    reveal_strlit("RMB1");
    reveal_strlit("RMB2");
    reveal_strlit("RMB3");
    reveal_strlit("RMB4");
    reveal_strlit("RMB5");
    reveal_strlit("RMB6");
    reveal_strlit("RMB7");
    reveal_strlit("ROL");
    reveal_strlit("ROR");
    reveal_strlit("RTI");
    reveal_strlit("RTS");
    reveal_strlit("SBC");
    reveal_strlit("SEC");
    reveal_strlit("SED");
    reveal_strlit("SEI");
    reveal_strlit("SMB0");
    reveal_strlit("SMB1");
    reveal_strlit("SMB2");
    reveal_strlit("SMB3");
    reveal_strlit("SMB4");
    reveal_strlit("SMB5");
    reveal_strlit("SMB6");
    reveal_strlit("SMB7");
    reveal_strlit("STA");
    reveal_strlit("STP");
    reveal_strlit("STX");
    reveal_strlit("STY");
    reveal_strlit("STZ");
    reveal_strlit("TAX");
    reveal_strlit("TAY");
    reveal_strlit("TRB");
    reveal_strlit("TSB");
    reveal_strlit("TSX");
    reveal_strlit("TXA");
    reveal_strlit("TXS");
    reveal_strlit("TYA");
    reveal_strlit("WAI");
}

/// The opcodes whose table entry does not give the byte count the
/// executor consumes: the undocumented skip-NOPs listed as implied; on
/// the CMOS variants the branch-on-bit family, which the table lists as
/// plain zero page though it carries a relative operand too; and $FF,
/// which the table lists as an implied NOP though the executor decodes
/// it as BBS7.
pub open spec fn spec_length_exceptions(op: u8, t: crate::cpu::CpuType) -> bool {
    op == 0x02 || op == 0x22 || op == 0x42 || op == 0x62 || op == 0x82 || op == 0xC2 || op
        == 0xE2 || op == 0x44 || op == 0x54 || op == 0xD4 || op == 0xF4 || op == 0xDC || op
        == 0xFC || op == 0xFF || ((op == 0x0F || op == 0x1F || op == 0x2F || op == 0x3F || op
        == 0x4F || op == 0x5F || op == 0x6F || op == 0x7F || op == 0x8F || op == 0x9F || op
        == 0xAF || op == 0xBF || op == 0xCF || op == 0xDF || op == 0xEF) && t
        != crate::cpu::CpuType::NMOS6502)
}

/// For every opcode outside the listed exceptions, the disassembler's
/// operand byte count is exactly what the CPU consumes when it executes
/// that opcode.
#[verifier::rlimit(100)]
#[verifier::spinoff_prover]
pub proof fn lemma_disassembly_length_matches(op: u8, t: crate::cpu::CpuType)
    requires
        !spec_length_exceptions(op, t),
    ensures
        spec_operand_bytes(spec_opcode_mode(op)) == crate::cpu::spec_consumed_operands(op, t),
{
    if t == crate::cpu::CpuType::NMOS6502 {
        assert(spec_operand_bytes(spec_opcode_mode(op)) == crate::cpu::spec_consumed_operands(
            op,
            t,
        ));
    } else {
        assert(spec_operand_bytes(spec_opcode_mode(op)) == crate::cpu::spec_consumed_operands(
            op,
            t,
        ));
    }
}

/// The formatted operand field of one instruction, as the trace prints
/// it: immediate, zero-page and absolute forms with their index or
/// indirection markers, and relative branches as their resolved target.
pub open spec fn spec_format_operands(
    addr: u16,
    mode: AddressingMode,
    operand1: u8,
    operand2: u8,
) -> Seq<u8> {
    let word = ((operand2 as u16) << 8) | (operand1 as u16);
    match mode {
        AddressingMode::Implied => Seq::<u8>::empty(),
        AddressingMode::Accumulator => seq![('A' as u8)],
        AddressingMode::Immediate => seq![('#' as u8), ('$' as u8)] + hex2(operand1),
        AddressingMode::ZeroPage => seq![('$' as u8)] + hex2(operand1),
        AddressingMode::ZeroPageX => seq![('$' as u8)] + hex2(operand1) + seq![
            (',' as u8),
            ('X' as u8),
        ],
        AddressingMode::ZeroPageY => seq![('$' as u8)] + hex2(operand1) + seq![
            (',' as u8),
            ('Y' as u8),
        ],
        AddressingMode::ZeroPageIndirect => seq![('(' as u8), ('$' as u8)] + hex2(operand1)
            + seq![(')' as u8)],
        AddressingMode::Absolute => seq![('$' as u8)] + hex4(word),
        AddressingMode::AbsoluteX => seq![('$' as u8)] + hex4(word) + seq![
            (',' as u8),
            ('X' as u8),
        ],
        AddressingMode::AbsoluteY => seq![('$' as u8)] + hex4(word) + seq![
            (',' as u8),
            ('Y' as u8),
        ],
        AddressingMode::Indirect => seq![('(' as u8), ('$' as u8)] + hex4(word) + seq![
            (')' as u8),
        ],
        AddressingMode::IndirectX => seq![('(' as u8), ('$' as u8)] + hex2(operand1) + seq![
            (',' as u8),
            ('X' as u8),
            (')' as u8),
        ],
        AddressingMode::IndirectY => seq![('(' as u8), ('$' as u8)] + hex2(operand1) + seq![
            (')' as u8),
            (',' as u8),
            ('Y' as u8),
        ],
        AddressingMode::IndirectAbsolute => seq![('(' as u8), ('$' as u8)] + hex4(word)
            + seq![(')' as u8)],
        AddressingMode::Relative => seq![('$' as u8)] + hex4(
            addr.wrapping_add(2).wrapping_add(((operand1 as i8) as u16)),
        ),
    }
}

/// The opcode and operand bytes of one instruction as the trace dumps
/// them: two hex digits each, space-separated.
pub open spec fn spec_byte_dump(op: u8, operand1: u8, operand2: u8, n: int) -> Seq<u8> {
    if n == 0 {
        hex2(op)
    } else if n == 1 {
        hex2(op) + seq![(' ' as u8)] + hex2(operand1)
    } else {
        hex2(op) + seq![(' ' as u8)] + hex2(operand1) + seq![(' ' as u8)] + hex2(operand2)
    }
}

/// One whole trace line: the address, the byte dump padded to eight
/// columns, a dash, the mnemonic padded to four, and the operand field
/// padded to eight.
pub open spec fn spec_disassemble(b: crate::bus::BusView, addr: u16) -> Seq<u8> {
    let op = crate::bus::spec_bus_read(b, addr).1;
    let operand1 = crate::bus::spec_bus_read(b, addr.wrapping_add(1)).1;
    let operand2 = crate::bus::spec_bus_read(b, addr.wrapping_add(2)).1;
    let mode = spec_opcode_mode(op);
    let n = spec_operand_bytes(mode);
    let formatted = if n == 0 {
        Seq::<u8>::empty()
    } else if n == 1 {
        spec_format_operands(addr, mode, operand1, 0)
    } else {
        spec_format_operands(addr, mode, operand1, operand2)
    };
    seq![('$' as u8)] + hex4(addr) + seq![(' ' as u8), (' ' as u8)] + pad_to(
        spec_byte_dump(op, operand1, operand2, n),
        8,
    ) + seq![(' ' as u8), (' ' as u8), ('-' as u8), (' ' as u8), (' ' as u8)] + pad_to(
        spec_opcode_mnemonic(op).map_values(|c: char| c as u8),
        4,
    ) + seq![(' ' as u8)] + pad_to(formatted, 8)
}

pub struct Disassembler;

impl Disassembler {
    #[verifier::rlimit(50)]
    fn lookup_x0(opcode: u8) -> (r: (&'static str, AddressingMode))
        requires
            0x00 <= opcode <= 0x0F,
        ensures
            r.0@ == spec_opcode_mnemonic(opcode),
            r.1 == spec_opcode_mode(opcode),
    {
        match opcode {
            0x00 => ("BRK", AddressingMode::Implied),
            0x01 => ("ORA", AddressingMode::IndirectX),
            0x02 => ("KIL", AddressingMode::Implied),
            0x03 => ("KIL", AddressingMode::Implied),
            0x04 => ("TSB", AddressingMode::ZeroPage),
            0x05 => ("ORA", AddressingMode::ZeroPage),
            0x06 => ("ASL", AddressingMode::ZeroPage),
            0x07 => ("RMB0", AddressingMode::ZeroPage),
            0x08 => ("PHP", AddressingMode::Implied),
            0x09 => ("ORA", AddressingMode::Immediate),
            0x0A => ("ASL", AddressingMode::Accumulator),
            0x0B => ("NOP", AddressingMode::Implied),
            0x0C => ("TSB", AddressingMode::Absolute),
            0x0D => ("ORA", AddressingMode::Absolute),
            0x0E => ("ASL", AddressingMode::Absolute),
            0x0F => ("BBR0", AddressingMode::ZeroPage),
            _ => ("???", AddressingMode::Implied),
        }
    }

    #[verifier::rlimit(50)]
    fn lookup_x1(opcode: u8) -> (r: (&'static str, AddressingMode))
        requires
            0x10 <= opcode <= 0x1F,
        ensures
            r.0@ == spec_opcode_mnemonic(opcode),
            r.1 == spec_opcode_mode(opcode),
    {
        match opcode {
            0x10 => ("BPL", AddressingMode::Relative),
            0x11 => ("ORA", AddressingMode::IndirectY),
            0x12 => ("ORA", AddressingMode::ZeroPageIndirect),
            0x13 => ("NOP", AddressingMode::Implied),
            0x14 => ("TRB", AddressingMode::ZeroPage),
            0x15 => ("ORA", AddressingMode::ZeroPageX),
            0x16 => ("ASL", AddressingMode::ZeroPageX),
            0x17 => ("RMB1", AddressingMode::ZeroPage),
            0x18 => ("CLC", AddressingMode::Implied),
            0x19 => ("ORA", AddressingMode::AbsoluteY),
            0x1A => ("INA", AddressingMode::Implied),
            0x1B => ("NOP", AddressingMode::Implied),
            0x1C => ("TRB", AddressingMode::Absolute),
            0x1D => ("ORA", AddressingMode::AbsoluteX),
            0x1E => ("ASL", AddressingMode::AbsoluteX),
            0x1F => ("BBR1", AddressingMode::ZeroPage),
            _ => ("???", AddressingMode::Implied),
        }
    }

    #[verifier::rlimit(50)]
    fn lookup_x2(opcode: u8) -> (r: (&'static str, AddressingMode))
        requires
            0x20 <= opcode <= 0x2F,
        ensures
            r.0@ == spec_opcode_mnemonic(opcode),
            r.1 == spec_opcode_mode(opcode),
    {
        match opcode {
            0x20 => ("JSR", AddressingMode::Absolute),
            0x21 => ("AND", AddressingMode::IndirectX),
            0x22 => ("KIL", AddressingMode::Implied),
            0x23 => ("NOP", AddressingMode::Implied),
            0x24 => ("BIT", AddressingMode::ZeroPage),
            0x25 => ("AND", AddressingMode::ZeroPage),
            0x26 => ("ROL", AddressingMode::ZeroPage),
            0x27 => ("RMB2", AddressingMode::ZeroPage),
            0x28 => ("PLP", AddressingMode::Implied),
            0x29 => ("AND", AddressingMode::Immediate),
            0x2A => ("ROL", AddressingMode::Accumulator),
            0x2B => ("NOP", AddressingMode::Implied),
            0x2C => ("BIT", AddressingMode::Absolute),
            0x2D => ("AND", AddressingMode::Absolute),
            0x2E => ("ROL", AddressingMode::Absolute),
            0x2F => ("BBR2", AddressingMode::ZeroPage),
            _ => ("???", AddressingMode::Implied),
        }
    }

    #[verifier::rlimit(50)]
    fn lookup_x3(opcode: u8) -> (r: (&'static str, AddressingMode))
        requires
            0x30 <= opcode <= 0x3F,
        ensures
            r.0@ == spec_opcode_mnemonic(opcode),
            r.1 == spec_opcode_mode(opcode),
    {
        match opcode {
            0x30 => ("BMI", AddressingMode::Relative),
            0x31 => ("AND", AddressingMode::IndirectY),
            0x32 => ("AND", AddressingMode::ZeroPageIndirect),
            0x33 => ("NOP", AddressingMode::Implied),
            0x34 => ("BIT", AddressingMode::ZeroPageX),
            0x35 => ("AND", AddressingMode::ZeroPageX),
            0x36 => ("ROL", AddressingMode::ZeroPageX),
            0x37 => ("RMB3", AddressingMode::ZeroPage),
            0x38 => ("SEC", AddressingMode::Implied),
            0x39 => ("AND", AddressingMode::AbsoluteY),
            0x3A => ("DEA", AddressingMode::Implied),
            0x3B => ("NOP", AddressingMode::Implied),
            0x3C => ("BIT", AddressingMode::AbsoluteX),
            0x3D => ("AND", AddressingMode::AbsoluteX),
            0x3E => ("ROL", AddressingMode::AbsoluteX),
            0x3F => ("BBR3", AddressingMode::ZeroPage),
            _ => ("???", AddressingMode::Implied),
        }
    }

    #[verifier::rlimit(50)]
    fn lookup_x4(opcode: u8) -> (r: (&'static str, AddressingMode))
        requires
            0x40 <= opcode <= 0x4F,
        ensures
            r.0@ == spec_opcode_mnemonic(opcode),
            r.1 == spec_opcode_mode(opcode),
    {
        match opcode {
            0x40 => ("RTI", AddressingMode::Implied),
            0x41 => ("EOR", AddressingMode::IndirectX),
            0x42 => ("KIL", AddressingMode::Implied),
            0x43 => ("NOP", AddressingMode::Implied),
            0x44 => ("NOP", AddressingMode::Implied),
            0x45 => ("EOR", AddressingMode::ZeroPage),
            0x46 => ("LSR", AddressingMode::ZeroPage),
            0x47 => ("RMB4", AddressingMode::ZeroPage),
            0x48 => ("PHA", AddressingMode::Implied),
            0x49 => ("EOR", AddressingMode::Immediate),
            0x4A => ("LSR", AddressingMode::Accumulator),
            0x4B => ("NOP", AddressingMode::Implied),
            0x4C => ("JMP", AddressingMode::Absolute),
            0x4D => ("EOR", AddressingMode::Absolute),
            0x4E => ("LSR", AddressingMode::Absolute),
            0x4F => ("BBR4", AddressingMode::ZeroPage),
            _ => ("???", AddressingMode::Implied),
        }
    }

    #[verifier::rlimit(50)]
    fn lookup_x5(opcode: u8) -> (r: (&'static str, AddressingMode))
        requires
            0x50 <= opcode <= 0x5F,
        ensures
            r.0@ == spec_opcode_mnemonic(opcode),
            r.1 == spec_opcode_mode(opcode),
    {
        match opcode {
            0x50 => ("BVC", AddressingMode::Relative),
            0x51 => ("EOR", AddressingMode::IndirectY),
            0x52 => ("EOR", AddressingMode::ZeroPageIndirect),
            0x53 => ("NOP", AddressingMode::Implied),
            0x54 => ("NOP", AddressingMode::Implied),
            0x55 => ("EOR", AddressingMode::ZeroPageX),
            0x56 => ("LSR", AddressingMode::ZeroPageX),
            0x57 => ("RMB5", AddressingMode::ZeroPage),
            0x58 => ("CLI", AddressingMode::Implied),
            0x59 => ("EOR", AddressingMode::AbsoluteY),
            0x5A => ("PHY", AddressingMode::Implied),
            0x5B => ("NOP", AddressingMode::Implied),
            0x5C => ("JMP", AddressingMode::IndirectAbsolute),
            0x5D => ("EOR", AddressingMode::AbsoluteX),
            0x5E => ("LSR", AddressingMode::AbsoluteX),
            0x5F => ("BBR5", AddressingMode::ZeroPage),
            _ => ("???", AddressingMode::Implied),
        }
    }

    #[verifier::rlimit(50)]
    fn lookup_x6(opcode: u8) -> (r: (&'static str, AddressingMode))
        requires
            0x60 <= opcode <= 0x6F,
        ensures
            r.0@ == spec_opcode_mnemonic(opcode),
            r.1 == spec_opcode_mode(opcode),
    {
        match opcode {
            0x60 => ("RTS", AddressingMode::Implied),
            0x61 => ("ADC", AddressingMode::IndirectX),
            0x62 => ("KIL", AddressingMode::Implied),
            0x63 => ("NOP", AddressingMode::Implied),
            0x64 => ("STZ", AddressingMode::ZeroPage),
            0x65 => ("ADC", AddressingMode::ZeroPage),
            0x66 => ("ROR", AddressingMode::ZeroPage),
            0x67 => ("RMB6", AddressingMode::ZeroPage),
            0x68 => ("PLA", AddressingMode::Implied),
            0x69 => ("ADC", AddressingMode::Immediate),
            0x6A => ("ROR", AddressingMode::Accumulator),
            0x6B => ("NOP", AddressingMode::Implied),
            0x6C => ("JMP", AddressingMode::Indirect),
            0x6D => ("ADC", AddressingMode::Absolute),
            0x6E => ("ROR", AddressingMode::Absolute),
            0x6F => ("BBR6", AddressingMode::ZeroPage),
            _ => ("???", AddressingMode::Implied),
        }
    }

    #[verifier::rlimit(50)]
    fn lookup_x7(opcode: u8) -> (r: (&'static str, AddressingMode))
        requires
            0x70 <= opcode <= 0x7F,
        ensures
            r.0@ == spec_opcode_mnemonic(opcode),
            r.1 == spec_opcode_mode(opcode),
    {
        match opcode {
            0x70 => ("BVS", AddressingMode::Relative),
            0x71 => ("ADC", AddressingMode::IndirectY),
            0x72 => ("ADC", AddressingMode::ZeroPageIndirect),
            0x73 => ("NOP", AddressingMode::Implied),
            0x74 => ("STZ", AddressingMode::ZeroPageX),
            0x75 => ("ADC", AddressingMode::ZeroPageX),
            0x76 => ("ROR", AddressingMode::ZeroPageX),
            0x77 => ("RMB7", AddressingMode::ZeroPage),
            0x78 => ("SEI", AddressingMode::Implied),
            0x79 => ("ADC", AddressingMode::AbsoluteY),
            0x7A => ("PLY", AddressingMode::Implied),
            0x7B => ("NOP", AddressingMode::Implied),
            0x7C => ("JMP", AddressingMode::IndirectAbsolute),
            0x7D => ("ADC", AddressingMode::AbsoluteX),
            0x7E => ("ROR", AddressingMode::AbsoluteX),
            0x7F => ("BBR7", AddressingMode::ZeroPage),
            _ => ("???", AddressingMode::Implied),
        }
    }

    #[verifier::rlimit(50)]
    fn lookup_x8(opcode: u8) -> (r: (&'static str, AddressingMode))
        requires
            0x80 <= opcode <= 0x8F,
        ensures
            r.0@ == spec_opcode_mnemonic(opcode),
            r.1 == spec_opcode_mode(opcode),
    {
        match opcode {
            0x80 => ("BRA", AddressingMode::Relative),
            0x81 => ("STA", AddressingMode::IndirectX),
            0x82 => ("NOP", AddressingMode::Implied),
            0x83 => ("NOP", AddressingMode::Implied),
            0x84 => ("STY", AddressingMode::ZeroPage),
            0x85 => ("STA", AddressingMode::ZeroPage),
            0x86 => ("STX", AddressingMode::ZeroPage),
            0x87 => ("SMB0", AddressingMode::ZeroPage),
            0x88 => ("DEY", AddressingMode::Implied),
            0x89 => ("BIT", AddressingMode::Immediate),
            0x8A => ("TXA", AddressingMode::Implied),
            0x8B => ("NOP", AddressingMode::Implied),
            0x8C => ("STY", AddressingMode::Absolute),
            0x8D => ("STA", AddressingMode::Absolute),
            0x8E => ("STX", AddressingMode::Absolute),
            0x8F => ("BBS0", AddressingMode::ZeroPage),
            _ => ("???", AddressingMode::Implied),
        }
    }

    #[verifier::rlimit(50)]
    fn lookup_x9(opcode: u8) -> (r: (&'static str, AddressingMode))
        requires
            0x90 <= opcode <= 0x9F,
        ensures
            r.0@ == spec_opcode_mnemonic(opcode),
            r.1 == spec_opcode_mode(opcode),
    {
        match opcode {
            0x90 => ("BCC", AddressingMode::Relative),
            0x91 => ("STA", AddressingMode::IndirectY),
            0x92 => ("STA", AddressingMode::ZeroPageIndirect),
            0x93 => ("NOP", AddressingMode::Implied),
            0x94 => ("STY", AddressingMode::ZeroPageX),
            0x95 => ("STA", AddressingMode::ZeroPageX),
            0x96 => ("STX", AddressingMode::ZeroPageY),
            0x97 => ("SMB1", AddressingMode::ZeroPage),
            0x98 => ("TYA", AddressingMode::Implied),
            0x99 => ("STA", AddressingMode::AbsoluteY),
            0x9A => ("TXS", AddressingMode::Implied),
            0x9B => ("NOP", AddressingMode::Implied),
            0x9C => ("STZ", AddressingMode::Absolute),
            0x9D => ("STA", AddressingMode::AbsoluteX),
            0x9E => ("STZ", AddressingMode::AbsoluteX),
            0x9F => ("BBS1", AddressingMode::ZeroPage),
            _ => ("???", AddressingMode::Implied),
        }
    }

    #[verifier::rlimit(50)]
    fn lookup_xa(opcode: u8) -> (r: (&'static str, AddressingMode))
        requires
            0xA0 <= opcode <= 0xAF,
        ensures
            r.0@ == spec_opcode_mnemonic(opcode),
            r.1 == spec_opcode_mode(opcode),
    {
        match opcode {
            0xA0 => ("LDY", AddressingMode::Immediate),
            0xA1 => ("LDA", AddressingMode::IndirectX),
            0xA2 => ("LDX", AddressingMode::Immediate),
            0xA3 => ("NOP", AddressingMode::Implied),
            0xA4 => ("LDY", AddressingMode::ZeroPage),
            0xA5 => ("LDA", AddressingMode::ZeroPage),
            0xA6 => ("LDX", AddressingMode::ZeroPage),
            0xA7 => ("SMB2", AddressingMode::ZeroPage),
            0xA8 => ("TAY", AddressingMode::Implied),
            0xA9 => ("LDA", AddressingMode::Immediate),
            0xAA => ("TAX", AddressingMode::Implied),
            0xAB => ("NOP", AddressingMode::Implied),
            0xAC => ("LDY", AddressingMode::Absolute),
            0xAD => ("LDA", AddressingMode::Absolute),
            0xAE => ("LDX", AddressingMode::Absolute),
            0xAF => ("BBS2", AddressingMode::ZeroPage),
            _ => ("???", AddressingMode::Implied),
        }
    }

    #[verifier::rlimit(50)]
    fn lookup_xb(opcode: u8) -> (r: (&'static str, AddressingMode))
        requires
            0xB0 <= opcode <= 0xBF,
        ensures
            r.0@ == spec_opcode_mnemonic(opcode),
            r.1 == spec_opcode_mode(opcode),
    {
        match opcode {
            0xB0 => ("BCS", AddressingMode::Relative),
            0xB1 => ("LDA", AddressingMode::IndirectY),
            0xB2 => ("LDA", AddressingMode::ZeroPageIndirect),
            0xB3 => ("NOP", AddressingMode::Implied),
            0xB4 => ("LDY", AddressingMode::ZeroPageX),
            0xB5 => ("LDA", AddressingMode::ZeroPageX),
            0xB6 => ("LDX", AddressingMode::ZeroPageY),
            0xB7 => ("SMB3", AddressingMode::ZeroPage),
            0xB8 => ("CLV", AddressingMode::Implied),
            0xB9 => ("LDA", AddressingMode::AbsoluteY),
            0xBA => ("TSX", AddressingMode::Implied),
            0xBB => ("NOP", AddressingMode::Implied),
            0xBC => ("LDY", AddressingMode::AbsoluteX),
            0xBD => ("LDA", AddressingMode::AbsoluteX),
            0xBE => ("LDX", AddressingMode::AbsoluteY),
            0xBF => ("BBS3", AddressingMode::ZeroPage),
            _ => ("???", AddressingMode::Implied),
        }
    }

    #[verifier::rlimit(50)]
    fn lookup_xc(opcode: u8) -> (r: (&'static str, AddressingMode))
        requires
            0xC0 <= opcode <= 0xCF,
        ensures
            r.0@ == spec_opcode_mnemonic(opcode),
            r.1 == spec_opcode_mode(opcode),
    {
        match opcode {
            0xC0 => ("CPY", AddressingMode::Immediate),
            0xC1 => ("CMP", AddressingMode::IndirectX),
            0xC2 => ("NOP", AddressingMode::Implied),
            0xC3 => ("NOP", AddressingMode::Implied),
            0xC4 => ("CPY", AddressingMode::ZeroPage),
            0xC5 => ("CMP", AddressingMode::ZeroPage),
            0xC6 => ("DEC", AddressingMode::ZeroPage),
            0xC7 => ("SMB4", AddressingMode::ZeroPage),
            0xC8 => ("INY", AddressingMode::Implied),
            0xC9 => ("CMP", AddressingMode::Immediate),
            0xCA => ("DEX", AddressingMode::Implied),
            0xCB => ("WAI", AddressingMode::Implied),
            0xCC => ("CPY", AddressingMode::Absolute),
            0xCD => ("CMP", AddressingMode::Absolute),
            0xCE => ("DEC", AddressingMode::Absolute),
            0xCF => ("BBS4", AddressingMode::ZeroPage),
            _ => ("???", AddressingMode::Implied),
        }
    }

    #[verifier::rlimit(50)]
    fn lookup_xd(opcode: u8) -> (r: (&'static str, AddressingMode))
        requires
            0xD0 <= opcode <= 0xDF,
        ensures
            r.0@ == spec_opcode_mnemonic(opcode),
            r.1 == spec_opcode_mode(opcode),
    {
        match opcode {
            0xD0 => ("BNE", AddressingMode::Relative),
            0xD1 => ("CMP", AddressingMode::IndirectY),
            0xD2 => ("CMP", AddressingMode::ZeroPageIndirect),
            0xD3 => ("NOP", AddressingMode::Implied),
            0xD4 => ("NOP", AddressingMode::Implied),
            0xD5 => ("CMP", AddressingMode::ZeroPageX),
            0xD6 => ("DEC", AddressingMode::ZeroPageX),
            0xD7 => ("SMB5", AddressingMode::ZeroPage),
            0xD8 => ("CLD", AddressingMode::Implied),
            0xD9 => ("CMP", AddressingMode::AbsoluteY),
            0xDA => ("PHX", AddressingMode::Implied),
            0xDB => ("STP", AddressingMode::Implied),
            0xDC => ("NOP", AddressingMode::Implied),
            0xDD => ("CMP", AddressingMode::AbsoluteX),
            0xDE => ("DEC", AddressingMode::AbsoluteX),
            0xDF => ("BBS5", AddressingMode::ZeroPage),
            _ => ("???", AddressingMode::Implied),
        }
    }

    #[verifier::rlimit(50)]
    fn lookup_xe(opcode: u8) -> (r: (&'static str, AddressingMode))
        requires
            0xE0 <= opcode <= 0xEF,
        ensures
            r.0@ == spec_opcode_mnemonic(opcode),
            r.1 == spec_opcode_mode(opcode),
    {
        match opcode {
            0xE0 => ("CPX", AddressingMode::Immediate),
            0xE1 => ("SBC", AddressingMode::IndirectX),
            0xE2 => ("NOP", AddressingMode::Implied),
            0xE3 => ("NOP", AddressingMode::Implied),
            0xE4 => ("CPX", AddressingMode::ZeroPage),
            0xE5 => ("SBC", AddressingMode::ZeroPage),
            0xE6 => ("INC", AddressingMode::ZeroPage),
            0xE7 => ("SMB6", AddressingMode::ZeroPage),
            0xE8 => ("INX", AddressingMode::Implied),
            0xE9 => ("SBC", AddressingMode::Immediate),
            0xEA => ("NOP", AddressingMode::Implied),
            0xEB => ("NOP", AddressingMode::Implied),
            0xEC => ("CPX", AddressingMode::Absolute),
            0xED => ("SBC", AddressingMode::Absolute),
            0xEE => ("INC", AddressingMode::Absolute),
            0xEF => ("BBS6", AddressingMode::ZeroPage),
            _ => ("???", AddressingMode::Implied),
        }
    }

    #[verifier::rlimit(50)]
    fn lookup_xf(opcode: u8) -> (r: (&'static str, AddressingMode))
        requires
            0xF0 <= opcode <= 0xFF,
        ensures
            r.0@ == spec_opcode_mnemonic(opcode),
            r.1 == spec_opcode_mode(opcode),
    {
        match opcode {
            0xF0 => ("BEQ", AddressingMode::Relative),
            0xF1 => ("SBC", AddressingMode::IndirectY),
            0xF2 => ("SBC", AddressingMode::ZeroPageIndirect),
            0xF3 => ("NOP", AddressingMode::Implied),
            0xF4 => ("NOP", AddressingMode::Implied),
            0xF5 => ("SBC", AddressingMode::ZeroPageX),
            0xF6 => ("INC", AddressingMode::ZeroPageX),
            0xF7 => ("SMB7", AddressingMode::ZeroPage),
            0xF8 => ("SED", AddressingMode::Implied),
            0xF9 => ("SBC", AddressingMode::AbsoluteY),
            0xFA => ("PLX", AddressingMode::Implied),
            0xFB => ("NOP", AddressingMode::Implied),
            0xFC => ("NOP", AddressingMode::Implied),
            0xFD => ("SBC", AddressingMode::AbsoluteX),
            0xFE => ("INC", AddressingMode::AbsoluteX),
            0xFF => ("NOP", AddressingMode::Implied),
            _ => ("???", AddressingMode::Implied),
        }
    }

    fn lookup_opcode(opcode: u8) -> (r: (&'static str, AddressingMode))
        ensures
            r.0@ == spec_opcode_mnemonic(opcode),
            r.1 == spec_opcode_mode(opcode),
    {
        if opcode < 0x10 {
            Self::lookup_x0(opcode)
        } else if opcode < 0x20 {
            Self::lookup_x1(opcode)
        } else if opcode < 0x30 {
            Self::lookup_x2(opcode)
        } else if opcode < 0x40 {
            Self::lookup_x3(opcode)
        } else if opcode < 0x50 {
            Self::lookup_x4(opcode)
        } else if opcode < 0x60 {
            Self::lookup_x5(opcode)
        } else if opcode < 0x70 {
            Self::lookup_x6(opcode)
        } else if opcode < 0x80 {
            Self::lookup_x7(opcode)
        } else if opcode < 0x90 {
            Self::lookup_x8(opcode)
        } else if opcode < 0xA0 {
            Self::lookup_x9(opcode)
        } else if opcode < 0xB0 {
            Self::lookup_xa(opcode)
        } else if opcode < 0xC0 {
            Self::lookup_xb(opcode)
        } else if opcode < 0xD0 {
            Self::lookup_xc(opcode)
        } else if opcode < 0xE0 {
            Self::lookup_xd(opcode)
        } else if opcode < 0xF0 {
            Self::lookup_xe(opcode)
        } else {
            Self::lookup_xf(opcode)
        }
    }

    /// Builds the operand field as ASCII bytes.
    fn format_operand_bytes(addr: u16, mode: AddressingMode, operand1: u8, operand2: u8) -> (r:
        Vec<u8>)
        ensures
            r@ == spec_format_operands(addr, mode, operand1, operand2),
            crate::util::ascii_bytes(r@),
    {
        let word = ((operand2 as u16) << 8) | (operand1 as u16);
        let mut buf: Vec<u8> = Vec::new();
        match mode {
            AddressingMode::Implied => {},
            AddressingMode::Accumulator => {
                buf.push('A' as u8);
            },
            AddressingMode::Immediate => {
                buf.push('#' as u8);
                buf.push('$' as u8);
                crate::util::push_hex2(&mut buf, operand1);
            },
            AddressingMode::ZeroPage => {
                buf.push('$' as u8);
                crate::util::push_hex2(&mut buf, operand1);
            },
            AddressingMode::ZeroPageX => {
                buf.push('$' as u8);
                crate::util::push_hex2(&mut buf, operand1);
                buf.push(',' as u8);
                buf.push('X' as u8);
            },
            AddressingMode::ZeroPageY => {
                buf.push('$' as u8);
                crate::util::push_hex2(&mut buf, operand1);
                buf.push(',' as u8);
                buf.push('Y' as u8);
            },
            AddressingMode::ZeroPageIndirect => {
                buf.push('(' as u8);
                buf.push('$' as u8);
                crate::util::push_hex2(&mut buf, operand1);
                buf.push(')' as u8);
            },
            AddressingMode::Absolute => {
                buf.push('$' as u8);
                crate::util::push_hex4(&mut buf, word);
            },
            AddressingMode::AbsoluteX => {
                buf.push('$' as u8);
                crate::util::push_hex4(&mut buf, word);
                buf.push(',' as u8);
                buf.push('X' as u8);
            },
            AddressingMode::AbsoluteY => {
                buf.push('$' as u8);
                crate::util::push_hex4(&mut buf, word);
                buf.push(',' as u8);
                buf.push('Y' as u8);
            },
            AddressingMode::Indirect => {
                buf.push('(' as u8);
                buf.push('$' as u8);
                crate::util::push_hex4(&mut buf, word);
                buf.push(')' as u8);
            },
            AddressingMode::IndirectX => {
                buf.push('(' as u8);
                buf.push('$' as u8);
                crate::util::push_hex2(&mut buf, operand1);
                buf.push(',' as u8);
                buf.push('X' as u8);
                buf.push(')' as u8);
            },
            AddressingMode::IndirectY => {
                buf.push('(' as u8);
                buf.push('$' as u8);
                crate::util::push_hex2(&mut buf, operand1);
                buf.push(')' as u8);
                buf.push(',' as u8);
                buf.push('Y' as u8);
            },
            AddressingMode::IndirectAbsolute => {
                buf.push('(' as u8);
                buf.push('$' as u8);
                crate::util::push_hex4(&mut buf, word);
                buf.push(')' as u8);
            },
            AddressingMode::Relative => {
                let offset: i8 = operand1 as i8;
                let target = addr.wrapping_add(2).wrapping_add(offset as u16);
                buf.push('$' as u8);
                crate::util::push_hex4(&mut buf, target);
            },
        }
        proof {
            assert(buf@ =~= spec_format_operands(addr, mode, operand1, operand2));
        }
        buf
    }

    pub fn format_operands(addr: u16, mode: AddressingMode, operand1: u8, operand2: u8) -> (r:
        String)
        ensures
            r@ == crate::util::ascii_view(spec_format_operands(addr, mode, operand1, operand2)),
    {
        let buf = Self::format_operand_bytes(addr, mode, operand1, operand2);
        crate::util::ascii_string(buf)
    }

    /// Formats the instruction at `addr` as one trace line. The function
    /// is read-only: it peeks at the bus and triggers no soft-switch side
    /// effects.
    #[verifier::rlimit(100)]
    #[verifier::spinoff_prover]
    pub fn disassemble(bus: &crate::bus::Bus, addr: u16) -> (r: String)
        ensures
            r@ == crate::util::ascii_view(spec_disassemble(bus@, addr)),
    {
        let opcode = bus.peek_byte(addr);
        let (mnemonic, mode) = Self::lookup_opcode(opcode);
        let operand_bytes = mode.operand_bytes();

        let operand1 = bus.peek_byte(addr.wrapping_add(1));
        let operand2 = bus.peek_byte(addr.wrapping_add(2));

        let formatted_operand: Vec<u8> = if operand_bytes == 0 {
            Vec::new()
        } else if operand_bytes == 1 {
            Self::format_operand_bytes(addr, mode, operand1, 0x00)
        } else {
            Self::format_operand_bytes(addr, mode, operand1, operand2)
        };

        let mut byte_dump: Vec<u8> = Vec::new();
        crate::util::push_hex2(&mut byte_dump, opcode);
        if operand_bytes >= 1 {
            byte_dump.push(' ' as u8);
            crate::util::push_hex2(&mut byte_dump, operand1);
        }
        if operand_bytes == 2 {
            byte_dump.push(' ' as u8);
            crate::util::push_hex2(&mut byte_dump, operand2);
        }
        proof {
            assert(byte_dump@ =~= spec_byte_dump(
                opcode,
                operand1,
                operand2,
                spec_operand_bytes(mode),
            ));
        }

        let mut line: Vec<u8> = Vec::new();
        line.push('$' as u8);
        crate::util::push_hex4(&mut line, addr);
        line.push(' ' as u8);
        line.push(' ' as u8);
        let ghost before_dump = line@;
        let mut dump_padded = byte_dump;
        crate::util::pad_right(&mut dump_padded, 8);
        crate::util::append_all(&mut line, &dump_padded);
        line.push(' ' as u8);
        line.push(' ' as u8);
        line.push('-' as u8);
        line.push(' ' as u8);
        line.push(' ' as u8);
        proof {
            lemma_mnemonic_ascii(opcode);
        }
        let ghost before_mn = line@;
        let mut mn_buf: Vec<u8> = Vec::new();
        crate::util::push_str_bytes(&mut mn_buf, mnemonic);
        crate::util::pad_right(&mut mn_buf, 4);
        crate::util::append_all(&mut line, &mn_buf);
        line.push(' ' as u8);
        let mut op_buf = formatted_operand;
        crate::util::pad_right(&mut op_buf, 8);
        crate::util::append_all(&mut line, &op_buf);
        proof {
            assert(line@ =~= spec_disassemble(bus@, addr));
        }
        crate::util::ascii_string(line)
    }
}

} // verus!
