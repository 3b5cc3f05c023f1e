//! The result sink: an append-only list of `name=value` lines handed to the
//! surrounding workflow engine. The sink's wire format is line-oriented, so a
//! name must not hold `=` or a line break, and a value must not hold a line
//! break nor begin with the multi-line marker `<<`.

use vstd::prelude::*;
use vstd::string::StrSliceExecFns;
use vstd::string::StringExecFns;

use crate::errors::CiError;
use crate::text;

verus! {

/// A name may be written to the sink: it holds no `=` and no line break.
pub open spec fn valid_result_name(name: Seq<char>) -> bool {
    !name.contains('=') && !name.contains('\n')
}

/// A value may be written to the sink: it holds no line break and does not
/// begin with the multi-line marker `<<`.
pub open spec fn valid_result_value(value: Seq<char>) -> bool {
    !value.contains('\n') && !(value.len() >= 2 && value[0] == '<' && value[1] == '<')
}

/// The single line that a successful emission appends to the sink.
pub open spec fn result_line(name: Seq<char>, value: Seq<char>) -> Seq<char> {
    name + "="@ + value
}

/// The in-process model of the workflow engine's result sink: the lines
/// written so far, in order of emission.
pub struct ResultSink {
    lines: Vec<String>,
}

impl View for ResultSink {
    type V = Seq<Seq<char>>;

    closed spec fn view(&self) -> Seq<Seq<char>> {
        Seq::new(self.lines@.len(), |i: int| self.lines@[i]@)
    }
}

impl ResultSink {
    /// An empty sink: nothing has been emitted yet.
    pub fn new() -> (r: ResultSink)
        ensures
            r@ == Seq::<Seq<char>>::empty(),
    {
        let r = ResultSink { lines: Vec::new() };
        proof {
            assert(r@ =~= Seq::<Seq<char>>::empty());
        }
        r
    }

    /// Writes one `name=value` pair to the sink, preserving the order of
    /// calls. Fails with `InvalidResult`, writing nothing, exactly when the
    /// name or the value breaks the sink's line-oriented wire format.
    pub fn emit_result(&mut self, name: &str, value: &str) -> (r: Result<(), CiError>)
        ensures
            (r is Ok) == (valid_result_name(name@) && valid_result_value(value@)),
            r is Ok ==> final(self)@ == old(self)@.push(result_line(name@, value@)),
            r is Err ==> final(self)@ == old(self)@ && r == Err::<(), CiError>(
                CiError::InvalidResult,
            ),
    {
        let name_ok = !text::contains_char(name, '=') && !text::contains_char(name, '\n');
        let value_len = value.unicode_len();
        let marked = value_len >= 2 && value.get_char(0) == '<' && value.get_char(1) == '<';
        let value_ok = !text::contains_char(value, '\n') && !marked;
        if !(name_ok && value_ok) {
            return Err(CiError::InvalidResult);
        }
        let mut line = String::new();
        line.append(name);
        line.append("=");
        line.append(value);
        proof {
            assert(line@ =~= result_line(name@, value@));
        }
        self.lines.push(line);
        proof {
            assert(self@ =~= old(self)@.push(result_line(name@, value@)));
        }
        Ok(())
    }

    /// How many lines the sink holds.
    pub fn len(&self) -> (r: usize)
        ensures
            r == self@.len(),
    {
        self.lines.len()
    }

    /// The `i`th line written, counting from the first emission.
    pub fn line(&self, i: usize) -> (r: &String)
        requires
            i < self@.len(),
        ensures
            r@ == self@[i as int],
    {
        &self.lines[i]
    }
}

} // verus!
