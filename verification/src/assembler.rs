//! The assembler: three passes over a source text, for the constants, for
//! the addresses of the labels, and for the bytes of the program.

use vstd::prelude::*;
use vstd::slice::slice_subrange;
use vstd::slice::slice_to_vec;

use crate::error::AssemblerError;
use crate::error::AssemblerFault;
use crate::error::AssemblerResult;
use crate::grammar::arity_error;
use crate::grammar::clean;
use crate::grammar::constants_pass;
use crate::grammar::data_bytes;
use crate::grammar::decimal_value_of;
use crate::grammar::emit_pass;
use crate::grammar::emitted;
use crate::grammar::hex_value_of;
use crate::grammar::kind_of;
use crate::grammar::labels_pass;
use crate::grammar::number_value;
use crate::grammar::operands_of;
use crate::grammar::operation;
use crate::grammar::quoted;
use crate::grammar::register_value;
use crate::grammar::resolved;
use crate::grammar::size_of;
use crate::grammar::source_lines;
use crate::grammar::target;
use crate::grammar::without_colons;
use crate::grammar::LabelScan;
use crate::grammar::LineKind;
use crate::hexlit::decode_hex;
use crate::nanocore::encode;
use crate::nanocore::Operands;
use crate::render::chars_of;
use crate::render::push_chars;
use crate::render::push_text;
use crate::render::string_of;
use crate::symbols::SymbolTable;
use crate::text::find_char;
use crate::text::find_last_char;
use crate::text::has_prefix;
use crate::text::lemma_first_word;
use crate::text::parse_decimal;
use crate::text::split_lines;
use crate::text::split_words;
use crate::text::starts_with;
use crate::text::trim_slice;
use crate::text::views;
use crate::Op;
use crate::OperandShape;

verus! {

/// The assembler: the source text it was given last, the labels and the
/// constants it knows, and the program it has put together.
#[derive(Debug)]
pub struct Assembler {
    pub source: String,
    pub labels: SymbolTable,
    pub constants: SymbolTable,
    pub program: Vec<u8>,
}

/// The assembler as plain values.
pub struct AssemblerState {
    pub source: Seq<char>,
    pub labels: Map<Seq<char>, u8>,
    pub constants: Map<Seq<char>, u8>,
    pub program: Seq<u8>,
}

impl View for Assembler {
    type V = AssemblerState;

    open spec fn view(&self) -> AssemblerState {
        AssemblerState {
            source: self.source@,
            labels: self.labels@,
            constants: self.constants@,
            program: self.program@,
        }
    }
}

/// Whether a result is the expected one: the same value, or an error with
/// the same content.
pub open spec fn agrees<T>(r: Result<T, AssemblerError>, expected: Result<T, AssemblerFault>) -> bool {
    match expected {
        Ok(v) => r is Ok && r->Ok_0 == v,
        Err(fault) => r is Err && r->Err_0@ == fault,
    }
}

/// Whether a result tells of the expected error, or of success where none
/// is expected.
pub open spec fn tells(r: Result<(), AssemblerError>, expected: Option<AssemblerFault>) -> bool {
    match expected {
        None => r is Ok,
        Some(fault) => r is Err && r->Err_0@ == fault,
    }
}

impl AssemblerState {
    /// An assembler that has read nothing yet.
    pub open spec fn initial() -> AssemblerState {
        AssemblerState {
            source: Seq::empty(),
            labels: Map::empty(),
            constants: Map::empty(),
            program: Seq::empty(),
        }
    }

    /// The state after the first pass over the source text, with its error
    /// if a line was in error.
    pub open spec fn with_constants(self) -> (AssemblerState, Option<AssemblerFault>) {
        let ls = source_lines(self.source);
        let pass = constants_pass(ls, ls.len() as int, self.constants);
        (AssemblerState { constants: pass.0, ..self }, pass.1)
    }

    /// The state after the second pass over the source text, with its
    /// error if a line was in error. Addresses count from 0.
    pub open spec fn with_labels(self) -> (AssemblerState, Option<AssemblerFault>) {
        let ls = source_lines(self.source);
        let pass = labels_pass(ls, ls.len() as int, LabelScan { labels: self.labels, address: 0 });
        (AssemblerState { labels: pass.0.labels, ..self }, pass.1)
    }

    /// The state after the third pass over the source text, with its error
    /// if a line was in error: the bytes of all lines are added to the
    /// program, or none is.
    pub open spec fn with_program(self) -> (AssemblerState, Option<AssemblerFault>) {
        let ls = source_lines(self.source);
        match emit_pass(ls, ls.len() as int, self.constants, self.labels) {
            Err(fault) => (self, Some(fault)),
            Ok(bytes) => (AssemblerState { program: self.program + bytes, ..self }, None),
        }
    }

    /// The state after a source text was assembled, with the error of the
    /// first pass that failed, if one did: no pass is made after it.
    pub open spec fn assembled(self, text: Seq<char>) -> (AssemblerState, Option<AssemblerFault>) {
        let first = (AssemblerState { source: text, ..self }).with_constants();
        if first.1 is Some {
            first
        } else {
            let second = first.0.with_labels();
            if second.1 is Some {
                second
            } else {
                second.0.with_program()
            }
        }
    }
}

/// The line as the assembler reads it.
fn clean_line<'a>(line: &'a [char]) -> (r: &'a [char])
    ensures
        r@ == clean(line@),
{
    let n = find_char(line, ';');
    let kept = slice_subrange(line, 0, n);
    trim_slice(kept)
}

/// The lines of a source text as the assembler reads them.
fn read_lines(text: &str) -> (out: Vec<Vec<char>>)
    ensures
        views(out@) == source_lines(text@),
{
    let chars = chars_of(text);
    let raw = split_lines(chars.as_slice());
    let mut out: Vec<Vec<char>> = Vec::new();
    let mut i: usize = 0;
    while i < raw.len()
        invariant
            i <= raw.len(),
            views(raw@) == crate::text::lines(text@),
            out@.len() == i,
            forall|k: int| 0 <= k < i ==> (#[trigger] out@[k])@ == clean(raw@[k]@),
        decreases raw.len() - i,
    {
        let line = slice_to_vec(clean_line(raw[i].as_slice()));
        out.push(line);
        i += 1;
    }
    out
}

/// What a line is.
fn kind(line: &[char]) -> (k: LineKind)
    ensures
        k == kind_of(line@),
{
    if line.len() == 0 {
        LineKind::Blank
    } else if starts_with(line, ".CONST") {
        LineKind::Constant
    } else if starts_with(line, ".DB") {
        LineKind::Bytes
    } else if starts_with(line, ".STRING") {
        LineKind::Text
    } else if line[line.len() - 1] == ':' {
        LineKind::Label
    } else {
        LineKind::Instruction
    }
}

/// The name of the label on a line: the line without the colons at its
/// end.
fn label_of<'a>(line: &'a [char]) -> (name: &'a [char])
    ensures
        name@ == without_colons(line@),
{
    let mut end: usize = line.len();
    proof {
        assert(line@.take(end as int) =~= line@);
    }
    while end > 0 && line[end - 1] == ':'
        invariant
            end <= line.len(),
            without_colons(line@) == without_colons(line@.take(end as int)),
        decreases end,
    {
        proof {
            assert(line@.take(end as int).drop_last() =~= line@.take(end - 1));
        }
        end -= 1;
    }
    slice_subrange(line, 0, end)
}

/// A syntax error with a message.
fn syntax(number: usize, message: &str) -> (e: AssemblerError)
    ensures
        e@ == (AssemblerFault::SyntaxError { line: number, message: message@ }),
{
    AssemblerError::SyntaxError { line: number, message: message.to_owned() }
}

/// What stands between the first and the last double quote of a line.
fn quoted_of<'a>(line: &'a [char], number: usize) -> (r: Result<&'a [char], AssemblerError>)
    ensures
        match quoted(line@, number) {
            Ok(content) => r is Ok && r->Ok_0@ == content,
            Err(fault) => r is Err && r->Err_0@ == fault,
        },
{
    let first = find_char(line, '"');
    if first >= line.len() {
        return Err(syntax(number, "Expected start of string"));
    }
    match find_last_char(line, '"') {
        Some(last) => {
            if last <= first {
                Err(syntax(number, "Expected end of string"))
            } else {
                Ok(slice_subrange(line, first + 1, last))
            }
        },
        None => Err(syntax(number, "Expected end of string")),
    }
}

/// The register that a word names.
fn register_of(word: &[char], number: usize) -> (r: AssemblerResult<u8>)
    ensures
        agrees(r, register_value(word@, number)),
{
    if word.len() > 0 && word[0] == 'R' {
        let digits = slice_subrange(word, 1, word.len());
        match parse_decimal(digits) {
            Some(v) => {
                if v <= 15 {
                    return Ok(v);
                }
            },
            None => {},
        }
    }
    Err(AssemblerError::InvalidRegister { name: string_of(word), line: number })
}

/// The byte that a decimal word stands for.
fn decimal_of(word: &[char], number: usize) -> (r: AssemblerResult<u8>)
    ensures
        agrees(r, decimal_value_of(word@, number)),
{
    match parse_decimal(word) {
        Some(v) => Ok(v),
        None => Err(AssemblerError::InvalidValue { value: string_of(word), line: number }),
    }
}

/// The byte that a hexadecimal word stands for.
fn hex_of(word: &[char], number: usize) -> (r: AssemblerResult<u8>)
    ensures
        agrees(r, hex_value_of(word@, number)),
{
    let digits = if starts_with(word, "0x") {
        proof {
            reveal_strlit("0x");
        }
        slice_subrange(word, 2, word.len())
    } else {
        word
    };
    let text = string_of(digits);
    match decode_hex(text.as_str()) {
        Err(_) => Err(AssemblerError::InvalidHexAddress { value: string_of(word), line: number }),
        Ok(bytes) => {
            if bytes.len() == 0 {
                Err(AssemblerError::InvalidValue { value: string_of(word), line: number })
            } else {
                Ok(bytes[0])
            }
        },
    }
}

/// The byte that a number stands for.
fn number_of(word: &[char], number: usize) -> (r: AssemblerResult<u8>)
    ensures
        agrees(r, number_value(word@, number)),
{
    if starts_with(word, "0x") {
        hex_of(word, number)
    } else {
        decimal_of(word, number)
    }
}

/// The operation that a word names.
fn operation_of(word: &[char], number: usize) -> (r: AssemblerResult<Op>)
    ensures
        agrees(r, operation(word@, number)),
{
    match Op::from_mnemonic(word) {
        Some(op) => Ok(op),
        None => {
            let mut message = String::new();
            push_text(&mut message, "Invalid operation: ");
            push_chars(&mut message, word);
            Err(AssemblerError::SyntaxError { line: number, message })
        },
    }
}

/// The error for an instruction with too few operands.
fn arity(op: Op, number: usize) -> (e: AssemblerError)
    ensures
        e@ == arity_error(op, number),
{
    let mut message = String::new();
    push_text(&mut message, op.name());
    match op.operand_shape() {
        OperandShape::Reg | OperandShape::Addr => {
            push_text(&mut message, " requires 1 argument");
        },
        _ => {
            push_text(&mut message, " requires 2 arguments");
        },
    }
    AssemblerError::SyntaxError { line: number, message }
}

/// The number of bytes that a line adds to the program, modulo 256.
fn size_of_line(line: &[char], number: usize) -> (r: AssemblerResult<u8>)
    ensures
        agrees(r, size_of(line@, number)),
{
    match kind(line) {
        LineKind::Blank | LineKind::Constant | LineKind::Label => Ok(0),
        LineKind::Bytes => {
            let parts = split_words(line);
            proof {
                reveal_strlit(".DB");
                assert(line@[0] == line@.take(3)[0]);
                lemma_first_word(line@);
            }
            Ok(((parts.len() - 1) % 256) as u8)
        },
        LineKind::Text => {
            match quoted_of(line, number) {
                Err(e) => Err(e),
                Ok(content) => {
                    let text = string_of(content);
                    Ok((text.as_str().as_bytes().len() % 256) as u8)
                },
            }
        },
        LineKind::Instruction => {
            let parts = split_words(line);
            if parts.len() == 0 {
                return Ok(0);
            }
            match operation_of(parts[0].as_slice(), number) {
                Err(e) => Err(e),
                Ok(op) => Ok(op.instruction_len()),
            }
        },
    }
}

impl Default for Assembler {
    fn default() -> (assembler: Assembler)
        ensures
            assembler@ == AssemblerState::initial(),
    {
        Assembler::new()
    }
}

impl Assembler {
    /// An assembler that has read nothing yet.
    pub fn new() -> (assembler: Assembler)
        ensures
            assembler@ == AssemblerState::initial(),
    {
        Assembler {
            source: String::new(),
            labels: SymbolTable::new(),
            constants: SymbolTable::new(),
            program: Vec::new(),
        }
    }

    /// The byte that a word stands for as a value.
    fn resolve(&self, word: &[char], number: usize) -> (r: AssemblerResult<u8>)
        ensures
            agrees(r, resolved(self.constants@, word@, number)),
    {
        match self.constants.get(word) {
            Some(v) => Ok(v),
            None => number_of(word, number),
        }
    }

    /// The address that a word stands for as the target of a jump.
    fn target_of(&self, word: &[char], number: usize) -> (r: AssemblerResult<u8>)
        ensures
            agrees(r, target(self.constants@, self.labels@, word@, number)),
    {
        match self.labels.get(word) {
            Some(v) => Ok(v),
            None => self.resolve(word, number),
        }
    }

    /// The operands of an instruction, from the words of its line.
    fn operands(&self, op: Op, parts: &Vec<Vec<char>>, number: usize) -> (r: AssemblerResult<
        Operands,
    >)
        ensures
            agrees(r, operands_of(op, views(parts@), self.constants@, self.labels@, number)),
    {
        match op.operand_shape() {
            OperandShape::Bare => Ok(Operands::Bare),
            OperandShape::Reg => {
                if parts.len() < 2 {
                    return Err(arity(op, number));
                }
                match register_of(parts[1].as_slice(), number) {
                    Err(e) => Err(e),
                    Ok(r) => Ok(Operands::Reg(r)),
                }
            },
            OperandShape::Addr => {
                if parts.len() < 2 {
                    return Err(arity(op, number));
                }
                match self.target_of(parts[1].as_slice(), number) {
                    Err(e) => Err(e),
                    Ok(a) => Ok(Operands::Addr(a)),
                }
            },
            OperandShape::RegReg => {
                if parts.len() < 3 {
                    return Err(arity(op, number));
                }
                match register_of(parts[1].as_slice(), number) {
                    Err(e) => Err(e),
                    Ok(rd) => match register_of(parts[2].as_slice(), number) {
                        Err(e) => Err(e),
                        Ok(rs) => Ok(Operands::RegReg(rd, rs)),
                    },
                }
            },
            OperandShape::RegImm => {
                if parts.len() < 3 {
                    return Err(arity(op, number));
                }
                match register_of(parts[1].as_slice(), number) {
                    Err(e) => Err(e),
                    Ok(r) => match self.resolve(parts[2].as_slice(), number) {
                        Err(e) => Err(e),
                        Ok(v) => Ok(Operands::RegImm(r, v)),
                    },
                }
            },
            OperandShape::RegAddr => {
                if parts.len() < 3 {
                    return Err(arity(op, number));
                }
                match register_of(parts[1].as_slice(), number) {
                    Err(e) => Err(e),
                    Ok(r) => match self.resolve(parts[2].as_slice(), number) {
                        Err(e) => Err(e),
                        Ok(v) => Ok(Operands::RegAddr(r, v)),
                    },
                }
            },
        }
    }

    /// The bytes that the words of a `.DB` line stand for.
    fn data_of(&self, parts: &Vec<Vec<char>>, number: usize) -> (r: AssemblerResult<Vec<u8>>)
        requires
            parts@.len() >= 1,
        ensures
            match data_bytes(self.constants@, views(parts@), parts@.len() as int, number) {
                Ok(bytes) => r is Ok && r->Ok_0@ == bytes,
                Err(fault) => r is Err && r->Err_0@ == fault,
            },
    {
        let mut bytes: Vec<u8> = Vec::new();
        let mut k: usize = 1;
        while k < parts.len()
            invariant
                1 <= k <= parts.len(),
                data_bytes(self.constants@, views(parts@), k as int, number) == Ok::<
                    Seq<u8>,
                    AssemblerFault,
                >(bytes@),
            decreases parts.len() - k,
        {
            match self.resolve(parts[k].as_slice(), number) {
                Err(e) => {
                    proof {
                        lemma_data_error(
                            self.constants@,
                            views(parts@),
                            k + 1,
                            parts@.len() as int,
                            number,
                        );
                    }
                    return Err(e);
                },
                Ok(v) => {
                    bytes.push(v);
                },
            }
            k += 1;
        }
        Ok(bytes)
    }

    /// The bytes that a line adds to the program.
    fn emit_line(&self, line: &[char], number: usize) -> (r: AssemblerResult<Vec<u8>>)
        ensures
            match emitted(line@, self.constants@, self.labels@, number) {
                Ok(bytes) => r is Ok && r->Ok_0@ == bytes,
                Err(fault) => r is Err && r->Err_0@ == fault,
            },
    {
        match kind(line) {
            LineKind::Blank | LineKind::Constant | LineKind::Label => Ok(Vec::new()),
            LineKind::Bytes => {
                let parts = split_words(line);
                proof {
                    reveal_strlit(".DB");
                    assert(line@[0] == line@.take(3)[0]);
                    lemma_first_word(line@);
                }
                self.data_of(&parts, number)
            },
            LineKind::Text => {
                match quoted_of(line, number) {
                    Err(e) => Err(e),
                    Ok(content) => {
                        let text = string_of(content);
                        Ok(slice_to_vec(text.as_str().as_bytes()))
                    },
                }
            },
            LineKind::Instruction => {
                let parts = split_words(line);
                if parts.len() == 0 {
                    return Ok(Vec::new());
                }
                match operation_of(parts[0].as_slice(), number) {
                    Err(e) => Err(e),
                    Ok(op) => match self.operands(op, &parts, number) {
                        Err(e) => Err(e),
                        Ok(x) => Ok(encode(op, &x)),
                    },
                }
            },
        }
    }

    /// The first pass over lines that are read already.
    fn scan_constants(&mut self, lines: &Vec<Vec<char>>) -> (r: AssemblerResult<()>)
        ensures
            final(self).constants@ == constants_pass(
                views(lines@),
                lines@.len() as int,
                old(self).constants@,
            ).0,
            tells(
                r,
                constants_pass(views(lines@), lines@.len() as int, old(self).constants@).1,
            ),
            final(self).source == old(self).source,
            final(self).labels == old(self).labels,
            final(self).program == old(self).program,
    {
        let mut i: usize = 0;
        while i < lines.len()
            invariant
                i <= lines.len(),
                constants_pass(views(lines@), i as int, old(self).constants@) == (
                    self.constants@,
                    None::<AssemblerFault>,
                ),
                self.source == old(self).source,
                self.labels == old(self).labels,
                self.program == old(self).program,
            decreases lines.len() - i,
        {
            let line = lines[i].as_slice();
            let number = i + 1;
            if kind(line) == LineKind::Constant {
                let parts = split_words(line);
                if parts.len() < 3 {
                    proof {
                        lemma_constants_error(
                            views(lines@),
                            i + 1,
                            lines@.len() as int,
                            old(self).constants@,
                        );
                    }
                    return Err(syntax(number, "Invalid constant definition"));
                }
                match number_of(parts[2].as_slice(), number) {
                    Err(e) => {
                        proof {
                            lemma_constants_error(
                                views(lines@),
                                i + 1,
                                lines@.len() as int,
                                old(self).constants@,
                            );
                        }
                        return Err(e);
                    },
                    Ok(v) => {
                        self.constants.insert(parts[1].as_slice(), v);
                    },
                }
            }
            i += 1;
        }
        Ok(())
    }

    /// The second pass over lines that are read already.
    fn scan_labels(&mut self, lines: &Vec<Vec<char>>) -> (r: AssemblerResult<()>)
        ensures
            final(self).labels@ == labels_pass(
                views(lines@),
                lines@.len() as int,
                (LabelScan { labels: old(self).labels@, address: 0 }),
            ).0.labels,
            tells(
                r,
                labels_pass(
                    views(lines@),
                    lines@.len() as int,
                    (LabelScan { labels: old(self).labels@, address: 0 }),
                ).1,
            ),
            final(self).source == old(self).source,
            final(self).constants == old(self).constants,
            final(self).program == old(self).program,
    {
        let ghost start = LabelScan { labels: self.labels@, address: 0 };
        let mut address: u8 = 0;
        let mut i: usize = 0;
        while i < lines.len()
            invariant
                i <= lines.len(),
                start == (LabelScan { labels: old(self).labels@, address: 0 }),
                labels_pass(views(lines@), i as int, start) == (
                    (LabelScan { labels: self.labels@, address }),
                    None::<AssemblerFault>,
                ),
                self.source == old(self).source,
                self.constants == old(self).constants,
                self.program == old(self).program,
            decreases lines.len() - i,
        {
            let line = lines[i].as_slice();
            let number = i + 1;
            match size_of_line(line, number) {
                Err(e) => {
                    proof {
                        lemma_labels_error(views(lines@), i + 1, lines@.len() as int, start);
                    }
                    return Err(e);
                },
                Ok(size) => {
                    if kind(line) == LineKind::Label {
                        self.labels.insert(label_of(line), address);
                    }
                    address = address.wrapping_add(size);
                },
            }
            i += 1;
        }
        Ok(())
    }

    /// The third pass over lines that are read already.
    fn scan_program(&mut self, lines: &Vec<Vec<char>>) -> (r: AssemblerResult<()>)
        ensures
            match emit_pass(
                views(lines@),
                lines@.len() as int,
                old(self).constants@,
                old(self).labels@,
            ) {
                Ok(bytes) => r is Ok && final(self).program@ == old(self).program@ + bytes,
                Err(fault) => r is Err && r->Err_0@ == fault && final(self).program@ == old(
                    self,
                ).program@,
            },
            final(self).source == old(self).source,
            final(self).constants == old(self).constants,
            final(self).labels == old(self).labels,
    {
        let mut out: Vec<u8> = Vec::new();
        let mut i: usize = 0;
        while i < lines.len()
            invariant
                i <= lines.len(),
                emit_pass(views(lines@), i as int, self.constants@, self.labels@) == Ok::<
                    Seq<u8>,
                    AssemblerFault,
                >(out@),
                *self == *old(self),
            decreases lines.len() - i,
        {
            let line = lines[i].as_slice();
            match self.emit_line(line, i + 1) {
                Err(e) => {
                    proof {
                        lemma_emit_error(
                            views(lines@),
                            i + 1,
                            lines@.len() as int,
                            self.constants@,
                            self.labels@,
                        );
                    }
                    return Err(e);
                },
                Ok(more) => {
                    let ghost before = out@;
                    let mut k: usize = 0;
                    while k < more.len()
                        invariant
                            k <= more.len(),
                            out@ == before + more@.take(k as int),
                        decreases more.len() - k,
                    {
                        out.push(more[k]);
                        k += 1;
                    }
                    proof {
                        assert(more@.take(more@.len() as int) =~= more@);
                    }
                },
            }
            i += 1;
        }
        let ghost before = self.program@;
        let mut k: usize = 0;
        while k < out.len()
            invariant
                k <= out.len(),
                self.program@ == before + out@.take(k as int),
                self.source == old(self).source,
                self.constants == old(self).constants,
                self.labels == old(self).labels,
            decreases out.len() - k,
        {
            self.program.push(out[k]);
            k += 1;
        }
        Ok(())
    }

    /// The first pass: enters into the table of constants what the
    /// `.CONST` lines of the source text define. It stops at the first line
    /// that is in error; the constants of the lines before it are entered.
    pub fn map_constants(&mut self) -> (r: AssemblerResult<()>)
        ensures
            final(self)@ == old(self)@.with_constants().0,
            tells(r, old(self)@.with_constants().1),
    {
        let lines = read_lines(self.source.as_str());
        self.scan_constants(&lines)
    }

    /// The second pass: enters into the table of labels each label of the
    /// source text with the address of the byte that follows it, counted
    /// from 0 and modulo 256. It stops at the first line that is in error;
    /// the labels of the lines before it are entered.
    pub fn map_labels(&mut self) -> (r: AssemblerResult<()>)
        ensures
            final(self)@ == old(self)@.with_labels().0,
            tells(r, old(self)@.with_labels().1),
    {
        let lines = read_lines(self.source.as_str());
        self.scan_labels(&lines)
    }

    /// Assembles a source text: the three passes, in their order. The bytes
    /// of the text are added to the program if every line is well formed;
    /// else the error of the first pass that fails is given, no pass is
    /// made after it, and the program stays as it was.
    pub fn assemble(&mut self, text: &str) -> (r: AssemblerResult<()>)
        ensures
            final(self)@ == old(self)@.assembled(text@).0,
            tells(r, old(self)@.assembled(text@).1),
    {
        self.source = text.to_owned();
        let lines = read_lines(text);
        match self.scan_constants(&lines) {
            Err(e) => {
                return Err(e);
            },
            Ok(()) => {},
        }
        match self.scan_labels(&lines) {
            Err(e) => {
                return Err(e);
            },
            Ok(()) => {},
        }
        self.scan_program(&lines)
    }

    /// The byte that a word stands for as a value: that of the constant of
    /// this name if there is one, else that of the number.
    pub fn resolve_number(&self, v: &str, line: usize) -> (r: AssemblerResult<u8>)
        ensures
            agrees(r, resolved(self@.constants, v@, line)),
    {
        let chars = chars_of(v);
        self.resolve(chars.as_slice(), line)
    }

    /// The register that a word names: `R` and a number from 0 to 15.
    pub fn register(r: &str, line: usize) -> (res: AssemblerResult<u8>)
        ensures
            agrees(res, register_value(r@, line)),
    {
        let chars = chars_of(r);
        register_of(chars.as_slice(), line)
    }

    /// The byte that a decimal word stands for.
    pub fn from_value_str(v: &str, line: usize) -> (r: AssemblerResult<u8>)
        ensures
            agrees(r, decimal_value_of(v@, line)),
    {
        let chars = chars_of(v);
        decimal_of(chars.as_slice(), line)
    }

    /// The byte that a hexadecimal word stands for: the first byte of its
    /// digits, which may follow `0x`.
    pub fn from_hex_str(v: &str, line: usize) -> (r: AssemblerResult<u8>)
        ensures
            agrees(r, hex_value_of(v@, line)),
    {
        let chars = chars_of(v);
        hex_of(chars.as_slice(), line)
    }

    /// Whether a line ends with a colon.
    pub fn is_label(l: &str) -> (b: bool)
        ensures
            b == (l@.len() > 0 && l@.last() == ':'),
    {
        let chars = chars_of(l);
        chars.len() > 0 && chars[chars.len() - 1] == ':'
    }

    /// Whether a line starts with `.CONST`.
    pub fn is_constant(l: &str) -> (b: bool)
        ensures
            b == has_prefix(l@, ".CONST"@),
    {
        let chars = chars_of(l);
        starts_with(chars.as_slice(), ".CONST")
    }

    /// Whether a line starts with `;`.
    pub fn is_comment(l: &str) -> (b: bool)
        ensures
            b == has_prefix(l@, ";"@),
    {
        let chars = chars_of(l);
        starts_with(chars.as_slice(), ";")
    }
}

/// Once a word of a `.DB` line is in error, the line is.
proof fn lemma_data_error(
    constants: Map<Seq<char>, u8>,
    w: Seq<Seq<char>>,
    k: int,
    n: int,
    number: usize,
)
    requires
        2 <= k <= n,
        data_bytes(constants, w, k, number) is Err,
    ensures
        data_bytes(constants, w, n, number) == data_bytes(constants, w, k, number),
    decreases n - k,
{
    if k < n {
        lemma_data_error(constants, w, k, n - 1, number);
    }
}

/// Once the first pass has met an error, it reads no further.
proof fn lemma_constants_error(ls: Seq<Seq<char>>, k: int, n: int, constants: Map<Seq<char>, u8>)
    requires
        1 <= k <= n,
        constants_pass(ls, k, constants).1 is Some,
    ensures
        constants_pass(ls, n, constants) == constants_pass(ls, k, constants),
    decreases n - k,
{
    if k < n {
        lemma_constants_error(ls, k, n - 1, constants);
    }
}

/// Once the second pass has met an error, it reads no further.
proof fn lemma_labels_error(ls: Seq<Seq<char>>, k: int, n: int, start: LabelScan)
    requires
        1 <= k <= n,
        labels_pass(ls, k, start).1 is Some,
    ensures
        labels_pass(ls, n, start) == labels_pass(ls, k, start),
    decreases n - k,
{
    if k < n {
        lemma_labels_error(ls, k, n - 1, start);
    }
}

/// Once the third pass has met an error, it reads no further.
proof fn lemma_emit_error(
    ls: Seq<Seq<char>>,
    k: int,
    n: int,
    constants: Map<Seq<char>, u8>,
    labels: Map<Seq<char>, u8>,
)
    requires
        1 <= k <= n,
        emit_pass(ls, k, constants, labels) is Err,
    ensures
        emit_pass(ls, n, constants, labels) == emit_pass(ls, k, constants, labels),
    decreases n - k,
{
    if k < n {
        lemma_emit_error(ls, k, n - 1, constants, labels);
    }
}

} // verus!
