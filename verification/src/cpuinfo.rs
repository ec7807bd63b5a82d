//! Deciding from `/proc/cpuinfo` whether the CPU runs x86-64-v3 code: the
//! first "model name" line decides.

use vstd::prelude::*;
use crate::text::{
    ascii_lowercase, contains_text, is_ascii_text, lowercase_of, str_contains, str_starts_with,
    str_to_lowercase,
};

verus! {

/// A cpuinfo line that names the CPU model.
pub open spec fn is_model_name_line(line: Seq<char>) -> bool {
    "model name"@.is_prefix_of(line)
}

/// A lower-cased model name that the check accepts.
pub open spec fn is_v3_model_name(lowered: Seq<char>) -> bool {
    ||| contains_text(lowered, "v3"@)
    ||| contains_text(lowered, "v4"@)
    ||| contains_text(lowered, "amd"@)
    ||| contains_text(lowered, "xeon(r)"@)
}

/// What one line says: nothing, or the verdict of a model-name line.
pub open spec fn line_verdict(line: Seq<char>) -> Option<bool> {
    if is_model_name_line(line) {
        Some(is_v3_model_name(lowercase_of(line)))
    } else {
        None
    }
}

/// The verdict of the first model-name line, if there is one.
pub open spec fn cpuinfo_verdict(lines: Seq<Seq<char>>) -> Option<bool>
    decreases lines.len(),
{
    if lines.len() == 0 {
        None
    } else {
        match line_verdict(lines[0]) {
            Some(v) => Some(v),
            None => cpuinfo_verdict(lines.drop_first()),
        }
    }
}

/// Why cpuinfo gives no verdict.
#[derive(Debug, Clone, Copy, PartialEq, Eq, Structural)]
pub enum CpuInfoError {
    /// No line names the CPU model (an I/O "not found" error).
    NotFound,
}

/// The text of each error.
pub open spec fn cpuinfo_error_text(e: CpuInfoError) -> Seq<char> {
    match e {
        CpuInfoError::NotFound => "Model name not found"@,
    }
}

impl CpuInfoError {
    /// The error's text.
    pub fn message(&self) -> (res: String)
        ensures
            res@ == cpuinfo_error_text(*self),
    {
        match self {
            CpuInfoError::NotFound => String::from_str("Model name not found"),
        }
    }
}

/// The result of the check: the verdict of the first model-name line, or the
/// not-found error where no line names the model.
pub open spec fn cpuinfo_result(lines: Seq<Seq<char>>) -> Result<bool, CpuInfoError> {
    match cpuinfo_verdict(lines) {
        Some(v) => Ok(v),
        None => Err(CpuInfoError::NotFound),
    }
}

/// The texts of a list of lines.
pub open spec fn line_texts(lines: Seq<String>) -> Seq<Seq<char>> {
    lines.map_values(|l: String| l@)
}

/// Whether a lower-cased model name names a v3-capable CPU.
pub fn model_name_supported(lowered: &str) -> (res: bool)
    ensures
        res == is_v3_model_name(lowered@),
{
    str_contains(lowered, "v3") || str_contains(lowered, "v4") || str_contains(lowered, "amd")
        || str_contains(lowered, "xeon(r)")
}

/// What an ASCII line says: its case folded the ASCII way.
pub open spec fn ascii_line_verdict(line: Seq<char>) -> Option<bool> {
    if is_model_name_line(line) {
        Some(is_v3_model_name(ascii_lowercase(line)))
    } else {
        None
    }
}

/// What one cpuinfo line says; for an ASCII line, with its capitals read as
/// small letters.
pub fn cpuinfo_line_verdict(line: &str) -> (res: Option<bool>)
    ensures
        res == line_verdict(line@),
        is_ascii_text(line@) ==> res == ascii_line_verdict(line@),
{
    if str_starts_with(line, "model name") {
        let lowered = str_to_lowercase(line);
        Some(model_name_supported(lowered.as_str()))
    } else {
        None
    }
}

/// The verdict of the first model-name line among `lines`; the not-found
/// error ("Model name not found") where no line names the model.
pub fn support_architecture_v3(lines: &Vec<String>) -> (res: Result<bool, CpuInfoError>)
    ensures
        res == cpuinfo_result(line_texts(lines@)),
{
    let ghost texts = line_texts(lines@);
    let mut i: usize = 0;
    assert(texts.skip(0) =~= texts);
    while i < lines.len()
        invariant
            i <= lines.len(),
            texts == line_texts(lines@),
            cpuinfo_verdict(texts) == cpuinfo_verdict(texts.skip(i as int)),
        decreases lines.len() - i,
    {
        let v = cpuinfo_line_verdict(lines[i].as_str());
        assert(texts.skip(i as int)[0] == lines@[i as int]@);
        assert(texts.skip(i as int).drop_first() =~= texts.skip(i + 1));
        if let Some(verdict) = v {
            return Ok(verdict);
        }
        i += 1;
    }
    assert(texts.skip(i as int).len() == 0);
    Err(CpuInfoError::NotFound)
}

/// Whether a name holds the text "a|b" (the pattern is literal text).
pub fn test_contains(name: &str) -> (res: bool)
    ensures
        res == contains_text(name@, "a|b"@),
{
    str_contains(name, "a|b")
}

/// The first model-name line decides: the lines before it name no model, and
/// the lines after it do not matter.
pub proof fn lemma_cpuinfo_first_model_line(lines: Seq<Seq<char>>, i: int)
    requires
        0 <= i < lines.len(),
        is_model_name_line(lines[i]),
        forall|j: int| 0 <= j < i ==> !is_model_name_line(#[trigger] lines[j]),
    ensures
        cpuinfo_verdict(lines) == line_verdict(lines[i]),
    decreases i,
{
    if i > 0 {
        assert forall|j: int| 0 <= j < i - 1 implies !is_model_name_line(
            #[trigger] lines.drop_first()[j],
        ) by {
            assert(lines.drop_first()[j] == lines[j + 1]);
        }
        assert(!is_model_name_line(lines[0]));
        lemma_cpuinfo_first_model_line(lines.drop_first(), i - 1);
    }
}

/// Where no line names the model, the check gives the not-found error.
pub proof fn lemma_cpuinfo_no_model_line(lines: Seq<Seq<char>>)
    requires
        forall|j: int| 0 <= j < lines.len() ==> !is_model_name_line(#[trigger] lines[j]),
    ensures
        cpuinfo_result(lines) == Err::<bool, CpuInfoError>(CpuInfoError::NotFound),
    decreases lines.len(),
{
    if lines.len() > 0 {
        assert forall|j: int| 0 <= j < lines.len() - 1 implies !is_model_name_line(
            #[trigger] lines.drop_first()[j],
        ) by {
            assert(lines.drop_first()[j] == lines[j + 1]);
        }
        lemma_cpuinfo_no_model_line(lines.drop_first());
    }
}

/// Two cpuinfo texts whose first model-name lines are the same once lower-cased
/// give the same result, whatever their other lines: letter case does not
/// matter, and only that first line counts.
pub proof fn lemma_cpuinfo_ignores_case(a: Seq<Seq<char>>, b: Seq<Seq<char>>, i: int, j: int)
    requires
        0 <= i < a.len(),
        0 <= j < b.len(),
        is_model_name_line(a[i]),
        is_model_name_line(b[j]),
        forall|k: int| 0 <= k < i ==> !is_model_name_line(#[trigger] a[k]),
        forall|k: int| 0 <= k < j ==> !is_model_name_line(#[trigger] b[k]),
        lowercase_of(a[i]) == lowercase_of(b[j]),
    ensures
        cpuinfo_result(a) == cpuinfo_result(b),
{
    lemma_cpuinfo_first_model_line(a, i);
    lemma_cpuinfo_first_model_line(b, j);
}

/// Two ASCII model-name lines that differ only in letter case say the same.
pub proof fn lemma_ascii_line_ignores_case(l1: Seq<char>, l2: Seq<char>)
    requires
        is_model_name_line(l1),
        is_model_name_line(l2),
        ascii_lowercase(l1) == ascii_lowercase(l2),
    ensures
        ascii_line_verdict(l1) == ascii_line_verdict(l2),
{
}

/// A line gives a verdict exactly when it begins with the ten characters
/// "model name"; any other line, such as the "model\t: 85" model-number line
/// or a line beginning "Model name", gives none.
pub proof fn lemma_model_name_line_exactly(line: Seq<char>)
    ensures
        line_verdict(line) is Some <==> (line.len() >= 10 && line.subrange(0, 10) == seq![
            'm', 'o', 'd', 'e', 'l', ' ', 'n', 'a', 'm', 'e',
        ]),
        ascii_line_verdict(line) is Some <==> line_verdict(line) is Some,
{
    reveal_strlit("model name");
    assert("model name"@ =~= seq!['m', 'o', 'd', 'e', 'l', ' ', 'n', 'a', 'm', 'e']);
}

/// The first line that begins with "model name" decides, whatever lines
/// (the "model" number line among them) stand before it: the CPU is accepted
/// exactly when that line, lower-cased, holds "v3", "v4", "amd" or "xeon(r)".
pub proof fn lemma_first_model_name_line_verdict(lines: Seq<Seq<char>>, i: int)
    requires
        0 <= i < lines.len(),
        lines[i].len() >= 10,
        lines[i].subrange(0, 10) == seq!['m', 'o', 'd', 'e', 'l', ' ', 'n', 'a', 'm', 'e'],
        forall|j: int|
            0 <= j < i ==> !(#[trigger] lines[j].len() >= 10 && lines[j].subrange(0, 10) == seq![
                'm', 'o', 'd', 'e', 'l', ' ', 'n', 'a', 'm', 'e',
            ]),
    ensures
        cpuinfo_result(lines) == Ok::<bool, CpuInfoError>(
            contains_text(lowercase_of(lines[i]), seq!['v', '3'])
            || contains_text(lowercase_of(lines[i]), seq!['v', '4'])
            || contains_text(lowercase_of(lines[i]), seq!['a', 'm', 'd'])
            || contains_text(lowercase_of(lines[i]), seq!['x', 'e', 'o', 'n', '(', 'r', ')']),
        ),
{
    lemma_model_name_line_exactly(lines[i]);
    assert forall|j: int| 0 <= j < i implies !is_model_name_line(#[trigger] lines[j]) by {
        lemma_model_name_line_exactly(lines[j]);
    }
    lemma_cpuinfo_first_model_line(lines, i);
    reveal_strlit("v3");
    reveal_strlit("v4");
    reveal_strlit("amd");
    reveal_strlit("xeon(r)");
    assert("v3"@ =~= seq!['v', '3']);
    assert("v4"@ =~= seq!['v', '4']);
    assert("amd"@ =~= seq!['a', 'm', 'd']);
    assert("xeon(r)"@ =~= seq!['x', 'e', 'o', 'n', '(', 'r', ')']);
}

/// Lines after a deciding line do not matter; lines before the first
/// model-name line do not matter either.
pub proof fn lemma_cpuinfo_verdict_append(a: Seq<Seq<char>>, b: Seq<Seq<char>>)
    ensures
        cpuinfo_verdict(a) is Some ==> cpuinfo_verdict(a + b) == cpuinfo_verdict(a),
        cpuinfo_verdict(a) is None ==> cpuinfo_verdict(a + b) == cpuinfo_verdict(b),
    decreases a.len(),
{
    if a.len() == 0 {
        assert(a + b =~= b);
    } else {
        assert((a + b)[0] == a[0]);
        assert((a + b).drop_first() =~= a.drop_first() + b);
        lemma_cpuinfo_verdict_append(a.drop_first(), b);
    }
}

} // verus!
