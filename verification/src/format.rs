//! Text of programs: indentation, procedure headers, hexadecimal and decimal numbers.

use vstd::prelude::*;

verus! {

/// The text added per level of indentation.
pub const INDENT_STRING: &'static str = "    ";

/// The identifier of a procedure: the hash of its fully-qualified name.
pub type ProcedureId = [u8; 24];

/// The source of a procedure, as far as its header is concerned: its name, documentation, number
/// of locals and whether it is exported.
#[derive(Debug)]
pub struct ProcedureAst {
    pub name: String,
    pub docs: Option<String>,
    pub num_locals: u16,
    pub is_export: bool,
}

/// The imported procedures invoked by a program: for each identifier, the procedure's name and the
/// path of its module.
pub type InvokedProcsMap = Vec<(ProcedureId, (String, String))>;

// TEXT OF NUMBERS
// ================================================================================================

/// The hexadecimal digit for `d`, below 16, in lower case.
pub open spec fn hex_digit(d: u8) -> char {
    if d < 10 {
        ((d + 48) as u8) as char
    } else {
        ((d + 87) as u8) as char
    }
}

/// The two hexadecimal digits of `b`.
pub open spec fn hex_byte(b: u8) -> Seq<char> {
    seq![hex_digit(b / 16), hex_digit(b % 16)]
}

/// The hexadecimal digits of `bytes`, two per byte, most significant first.
pub open spec fn hex_bytes(bytes: Seq<u8>) -> Seq<char>
    decreases bytes.len(),
{
    if bytes.len() == 0 {
        Seq::empty()
    } else {
        hex_bytes(bytes.drop_last()) + hex_byte(bytes.last())
    }
}

/// The decimal digit for `d`, below 10.
pub open spec fn decimal_digit(d: nat) -> char {
    ((d + 48) as u8) as char
}

/// The decimal text of `n`, without leading zeros.
pub open spec fn decimal(n: nat) -> Seq<char>
    decreases n,
{
    if n < 10 {
        seq![decimal_digit(n)]
    } else {
        decimal(n / 10) + seq![decimal_digit(n % 10)]
    }
}

/// The text of the digit `d`, below 16.
fn digit_str(d: u8) -> (r: &'static str)
    requires
        d < 16,
    ensures
        r@ == seq![hex_digit(d)],
{
    proof {
        reveal_strlit("0");
        reveal_strlit("1");
        reveal_strlit("2");
        reveal_strlit("3");
        reveal_strlit("4");
        reveal_strlit("5");
        reveal_strlit("6");
        reveal_strlit("7");
        reveal_strlit("8");
        reveal_strlit("9");
        reveal_strlit("a");
        reveal_strlit("b");
        reveal_strlit("c");
        reveal_strlit("d");
        reveal_strlit("e");
        reveal_strlit("f");
    }
    match d {
        0 => "0",
        1 => "1",
        2 => "2",
        3 => "3",
        4 => "4",
        5 => "5",
        6 => "6",
        7 => "7",
        8 => "8",
        9 => "9",
        10 => "a",
        11 => "b",
        12 => "c",
        13 => "d",
        14 => "e",
        _ => "f",
    }
}

/// Appends the decimal text of `n` to `out`.
pub fn append_decimal(out: &mut String, n: u64)
    ensures
        final(out)@ == old(out)@ + decimal(n as nat),
    decreases n,
{
    if n >= 10 {
        append_decimal(out, n / 10);
    }
    let d = (n % 10) as u8;
    out.append(digit_str(d));
    proof {
        assert(hex_digit(d) == decimal_digit((n % 10) as nat));
    }
}

/// Builds a hex string from a byte slice: `0x` followed by two lower-case digits per byte.
pub fn display_hex_bytes(bytes: &[u8]) -> (r: String)
    ensures
        r@ == "0x"@ + hex_bytes(bytes@),
{
    let mut out = String::from_str("0x");
    let ghost prefix = "0x"@;
    let mut i: usize = 0;
    while i < bytes.len()
        invariant
            i <= bytes.len(),
            out@ == prefix + hex_bytes(bytes@.take(i as int)),
        decreases bytes.len() - i,
    {
        let b = bytes[i];
        out.append(digit_str(b / 16));
        out.append(digit_str(b % 16));
        proof {
            assert(bytes@.take(i + 1).drop_last() =~= bytes@.take(i as int));
            assert(out@ =~= prefix + hex_bytes(bytes@.take(i + 1)));
        }
        i = i + 1;
    }
    proof {
        assert(bytes@.take(i as int) =~= bytes@);
    }
    out
}

/// The text of a `push` of `values`: `push` followed by `.` and the decimal text of each value.
pub open spec fn push_text(values: Seq<u64>) -> Seq<char>
    decreases values.len(),
{
    if values.len() == 0 {
        "push"@
    } else {
        push_text(values.drop_last()) + seq!['.'] + decimal(values.last() as nat)
    }
}

/// Builds the string that displays a push of `values`.
pub fn display_push_vec(values: &[u64]) -> (r: String)
    ensures
        r@ == push_text(values@),
{
    let mut out = String::from_str("push");
    let mut i: usize = 0;
    while i < values.len()
        invariant
            i <= values.len(),
            out@ == push_text(values@.take(i as int)),
        decreases values.len() - i,
    {
        proof {
            reveal_strlit(".");
        }
        out.append(".");
        append_decimal(&mut out, values[i]);
        proof {
            assert(values@.take(i + 1).drop_last() =~= values@.take(i as int));
            assert(out@ =~= push_text(values@.take(i + 1)));
        }
        i = i + 1;
    }
    proof {
        assert(values@.take(i as int) =~= values@);
    }
    out
}

// FORMATTER CONTEXT
// ================================================================================================

/// The indentation text for `level` levels.
pub open spec fn indentation(level: nat) -> Seq<char>
    decreases level,
{
    if level == 0 {
        Seq::empty()
    } else {
        indentation((level - 1) as nat) + INDENT_STRING@
    }
}

/// Context for the formatter of a program: the current indentation level, and the declared and
/// imported procedures of the program or module being formatted.
pub struct AstFormatterContext<'a> {
    indent_level: usize,
    local_procs: &'a Vec<ProcedureAst>,
    imported_procs: &'a InvokedProcsMap,
}

impl<'a> AstFormatterContext<'a> {
    /// The current indentation level.
    pub closed spec fn spec_indent_level(&self) -> usize {
        self.indent_level
    }

    /// The procedures declared in the program.
    pub closed spec fn spec_local_procs(&self) -> Seq<ProcedureAst> {
        self.local_procs@
    }

    /// The imported procedures invoked by the program.
    pub closed spec fn spec_imported_procs(&self) -> Seq<(ProcedureId, (String, String))> {
        self.imported_procs@
    }

    /// A context at indentation level zero.
    pub fn new(local_procs: &'a Vec<ProcedureAst>, imported_procs: &'a InvokedProcsMap) -> (r: AstFormatterContext<'a>)
        ensures
            r.spec_indent_level() == 0,
            r.spec_local_procs() == local_procs@,
            r.spec_imported_procs() == imported_procs@,
    {
        AstFormatterContext { indent_level: 0, local_procs, imported_procs }
    }

    /// Builds a context for the inner scope, e.g. the body of a while loop: one level deeper.
    pub fn inner_scope_context(&self) -> (r: Self)
        requires
            self.spec_indent_level() < usize::MAX,
        ensures
            r.spec_indent_level() == self.spec_indent_level() + 1,
            r.spec_local_procs() == self.spec_local_procs(),
            r.spec_imported_procs() == self.spec_imported_procs(),
    {
        AstFormatterContext {
            indent_level: self.indent_level + 1,
            local_procs: self.local_procs,
            imported_procs: self.imported_procs,
        }
    }

    /// The indentation of the current line.
    pub fn indent(&self) -> (r: String)
        ensures
            r@ == indentation(self.spec_indent_level() as nat),
    {
        let mut out = String::new();
        let mut i: usize = 0;
        while i < self.indent_level
            invariant
                i <= self.indent_level,
                out@ == indentation(i as nat),
            decreases self.indent_level - i,
        {
            out.append(INDENT_STRING);
            i = i + 1;
        }
        out
    }

    /// Gets the name of the local procedure with the given index, which must be that of one of
    /// the declared procedures.
    pub fn local_proc(&self, index: usize) -> (r: &String)
        requires
            index < self.spec_local_procs().len(),
        ensures
            *r == self.spec_local_procs()[index as int].name,
    {
        &self.local_procs[index].name
    }

    /// Gets the name and module path of the imported procedure with the given identifier, which
    /// must be that of one of the imported procedures.
    pub fn imported_proc(&self, id: &ProcedureId) -> (r: &(String, String))
        requires
            exists|k: int| 0 <= k < self.spec_imported_procs().len() && self.spec_imported_procs()[k].0@ == id@,
        ensures
            exists|k: int|
                {
                    &&& 0 <= k < self.spec_imported_procs().len()
                    &&& self.spec_imported_procs()[k].0@ == id@
                    &&& *r == self.spec_imported_procs()[k].1
                    &&& forall|j: int| 0 <= j < k ==> self.spec_imported_procs()[j].0@ != id@
                },
    {
        let mut i: usize = 0;
        while i < self.imported_procs.len()
            invariant
                i <= self.imported_procs@.len(),
                forall|j: int| 0 <= j < i ==> self.imported_procs@[j].0@ != id@,
                exists|k: int| 0 <= k < self.imported_procs@.len() && self.imported_procs@[k].0@ == id@,
            decreases self.imported_procs.len() - i,
        {
            if ids_equal(&self.imported_procs[i].0, id) {
                proof {
                    let k = i as int;
                    assert(0 <= k < self.spec_imported_procs().len() && self.spec_imported_procs()[k].0@ == id@
                        && self.imported_procs@[k].1 == self.spec_imported_procs()[k].1
                        && forall|j: int| 0 <= j < k ==> self.spec_imported_procs()[j].0@ != id@);
                }
                return &self.imported_procs[i].1;
            }
            i = i + 1;
        }
        proof {
            let k = choose|k: int| 0 <= k < self.imported_procs@.len() && self.imported_procs@[k].0@ == id@;
            assert(self.imported_procs@[k].0@ != id@);
        }
        unreached()
    }
}

/// Whether the identifiers `a` and `b` are equal.
fn ids_equal(a: &ProcedureId, b: &ProcedureId) -> (r: bool)
    ensures
        r == (a@ == b@),
{
    let mut i: usize = 0;
    while i < 24
        invariant
            i <= 24,
            forall|j: int| 0 <= j < i ==> a@[j] == b@[j],
        decreases 24 - i,
    {
        if a[i] != b[i] {
            return false;
        }
        i = i + 1;
    }
    proof {
        assert(a@ =~= b@);
    }
    true
}

// FORMATTING OF PROCEDURES
// ================================================================================================

/// A procedure together with the context in which it is formatted.
pub struct FormattableProcedureAst<'a> {
    proc: &'a ProcedureAst,
    context: &'a AstFormatterContext<'a>,
}

/// The header of procedure `proc` at the indentation `indent`: its documentation line, if any,
/// then `export.` or `proc.`, its name and its number of locals.
pub open spec fn procedure_header(proc: ProcedureAst, indent: Seq<char>) -> Seq<char> {
    (match proc.docs {
        Some(doc) => indent + "#! "@ + doc@ + "\n"@,
        None => indent,
    }) + indent + (if proc.is_export {
        "export."@
    } else {
        "proc."@
    }) + proc.name@ + "."@ + decimal(proc.num_locals as nat) + "\n"@
}

impl<'a> FormattableProcedureAst<'a> {
    /// The procedure `proc`, formatted in `context`.
    pub fn new(proc: &'a ProcedureAst, context: &'a AstFormatterContext<'a>) -> (r: FormattableProcedureAst<'a>)
        ensures
            *r.spec_proc() == *proc,
            r.spec_indent_level() == context.spec_indent_level(),
    {
        FormattableProcedureAst { proc, context }
    }

    /// The procedure being formatted.
    pub closed spec fn spec_proc(&self) -> &'a ProcedureAst {
        self.proc
    }

    /// The indentation level of the procedure.
    pub closed spec fn spec_indent_level(&self) -> usize {
        self.context.spec_indent_level()
    }

    /// The text that starts the procedure: its documentation, if any, and its header line.
    pub fn header(&self) -> (r: String)
        ensures
            r@ == procedure_header(*self.spec_proc(), indentation(self.spec_indent_level() as nat)),
    {
        proof {
            reveal_strlit("#! ");
            reveal_strlit("\n");
            reveal_strlit("export.");
            reveal_strlit("proc.");
            reveal_strlit(".");
        }
        let indent = self.context.indent();
        let mut out = String::new();
        match &self.proc.docs {
            Some(doc) => {
                out.append(indent.as_str());
                out.append("#! ");
                out.append(doc.as_str());
                out.append("\n");
            },
            None => {
                out.append(indent.as_str());
            },
        }
        out.append(indent.as_str());
        if self.proc.is_export {
            out.append("export.");
        } else {
            out.append("proc.");
        }
        out.append(self.proc.name.as_str());
        out.append(".");
        append_decimal(&mut out, self.proc.num_locals as u64);
        out.append("\n");
        proof {
            let ind = indentation(self.spec_indent_level() as nat);
            assert(out@ =~= procedure_header(*self.spec_proc(), ind));
        }
        out
    }
}

} // verus!
