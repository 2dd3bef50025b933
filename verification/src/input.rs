//! Prompted console input with re-prompting.
//!
//! An `IoLayer` joins a text sink and a text source. Each request writes the
//! prompt followed by `"? "`, reads one line, splits it with `parse`, and
//! tries to convert the leading fields; on a malformed line it writes
//! `?Re-enter` and asks again. A request gives up only when the source has
//! ended, or after an attempt budget so large that an interactive session
//! cannot spend it — the budget is a safety net that makes every request
//! loop provably bounded. The standard layers talk to the console; the test
//! layers hold their text in memory and are verified exactly.

use std::io::BufRead;
use std::io::Write;
use std::str::FromStr;
use vstd::prelude::*;
use vstd::string::StringExecFns;

verus! {

/// A sink for prompt and diagnostic text. The texts written so far are kept
/// as the sink's log, so that a caller can say what a request wrote.
pub trait TextOutput {
    /// The texts written to this sink, oldest first.
    spec fn log(&self) -> Seq<Seq<char>>;

    fn write(&mut self, to_write: &str)
        ensures
            final(self).log() == old(self).log().push(to_write@),
    ;
}

/// A source of input lines: `None` once the source has ended.
pub trait TextInput {
    fn read(&mut self) -> Option<String>;
}

/// Writes text to standard output.
pub struct StdoutLayer {
    history: Ghost<Seq<Seq<char>>>,
}

impl StdoutLayer {
    pub fn new() -> (r: Self)
        ensures
            r.log() == Seq::<Seq<char>>::empty(),
    {
        StdoutLayer { history: Ghost(Seq::empty()) }
    }
}

/// Relies on the write macro over std::io::Stdout and on Write::flush:
/// prints the text to standard output and flushes it.
#[verifier::external_body]
fn write_stdout(to_write: &str) {
    let mut out = std::io::stdout().lock();
    let _ = write!(out, "{}", to_write);
    let _ = out.flush();
}

impl TextOutput for StdoutLayer {
    closed spec fn log(&self) -> Seq<Seq<char>> {
        self.history@
    }

    fn write(&mut self, to_write: &str) {
        write_stdout(to_write);
        self.history = Ghost(self.history@.push(to_write@));
    }
}

/// Reads lines from standard input.
pub struct StdinLayer;

impl StdinLayer {
    pub fn new() -> Self {
        StdinLayer
    }
}

/// Relies on std::io::BufRead::read_line on locked standard input: returns
/// the next line, or None when the stream has ended or failed.
#[verifier::external_body]
fn read_stdin_line() -> (r: Option<String>) {
    let mut buffer = String::new();
    let stdin = std::io::stdin();
    let mut handle = stdin.lock();
    match handle.read_line(&mut buffer) {
        Ok(0) => None,
        Ok(_) => Some(buffer),
        Err(_) => None,
    }
}

impl TextInput for StdinLayer {
    fn read(&mut self) -> (r: Option<String>) {
        read_stdin_line()
    }
}

/// An in-memory text source holding at most one line.
pub struct ReadTestLayer {
    next_line: Option<String>,
}

impl ReadTestLayer {
    /// The line waiting to be read, if any.
    pub closed spec fn pending(&self) -> Option<Seq<char>> {
        match self.next_line {
            Some(s) => Some(s@),
            None => None,
        }
    }

    pub fn new() -> (r: Self)
        ensures
            r.pending() is None,
    {
        ReadTestLayer { next_line: None }
    }

    pub fn set_input_text(&mut self, text: &str)
        ensures
            final(self).pending() == Some(text@),
    {
        self.next_line = Some(text.to_owned());
    }

}

impl TextInput for ReadTestLayer {
    /// Hands out the waiting line and clears it.
    fn read(&mut self) -> (r: Option<String>)
        ensures
            final(self).pending() is None,
            match (old(self).pending(), r) {
                (Some(line), Some(s)) => s@ == line,
                (None, None) => true,
                _ => false,
            },
    {
        self.next_line.take()
    }
}

/// An in-memory text sink remembering the last text written.
pub struct WriteTestLayer {
    last_item_written: String,
    history: Ghost<Seq<Seq<char>>>,
}

impl WriteTestLayer {
    /// The text written last.
    pub closed spec fn last(&self) -> Seq<char> {
        self.last_item_written@
    }

    pub fn new() -> (r: Self)
        ensures
            r.last() == Seq::<char>::empty(),
            r.log() == Seq::<Seq<char>>::empty(),
    {
        WriteTestLayer { last_item_written: String::new(), history: Ghost(Seq::empty()) }
    }

    pub fn get_last_line(&self) -> (r: String)
        ensures
            r@ == self.last(),
    {
        self.last_item_written.clone()
    }

}

impl TextOutput for WriteTestLayer {
    closed spec fn log(&self) -> Seq<Seq<char>> {
        self.history@
    }

    /// Remembers the text as the last one written.
    fn write(&mut self, to_write: &str)
        ensures
            final(self).last() == to_write@,
    {
        self.last_item_written = to_write.to_owned();
        self.history = Ghost(self.history@.push(to_write@));
    }
}

/// A text sink and a text source taken together.
pub struct IoLayer<O: TextOutput, I: TextInput> {
    pub output: O,
    pub input: I,
}

impl IoLayer<StdoutLayer, StdinLayer> {
    /// The layer over the console.
    pub fn get_io() -> (r: Self)
        ensures
            r.output.log() == Seq::<Seq<char>>::empty(),
    {
        IoLayer { output: StdoutLayer::new(), input: StdinLayer::new() }
    }
}

impl IoLayer<WriteTestLayer, ReadTestLayer> {
    /// A layer over in-memory text, for exercising the request cycle
    /// without a console.
    pub fn test() -> (r: Self)
        ensures
            r.output.last() == Seq::<char>::empty(),
            r.output.log() == Seq::<Seq<char>>::empty(),
            r.input.pending() is None,
    {
        IoLayer { output: WriteTestLayer::new(), input: ReadTestLayer::new() }
    }
}

/// The prompt text followed by a question mark and a space.
fn prompt_line(prompt: &str) -> (r: String)
    ensures
        r@ == prompt@ + "? "@,
{
    let mut r = prompt.to_owned();
    r.append("? ");
    r
}

/// How a request is allowed to grow a sink's log: what stood before stands
/// unchanged, and every added text is the request's own prompt line or its
/// re-enter notice.
pub open spec fn request_texts_only(
    before: Seq<Seq<char>>,
    after: Seq<Seq<char>>,
    prompt: Seq<char>,
    notice: Seq<char>,
) -> bool {
    &&& after.len() >= before.len()
    &&& (forall|i: int| 0 <= i < before.len() ==> after[i] == before[i])
    &&& (forall|i: int|
        before.len() <= i < after.len() ==> (after[i] == prompt + "? "@ || after[i] == notice))
}

/// Relies on str::parse: attempts the conversion that the type's FromStr
/// implementation defines, which this library does not interpret.
#[verifier::external_body]
fn parse_value<F: FromStr>(s: &String) -> (r: Option<F>) {
    match s.as_str().parse::<F>() {
        Ok(v) => Some(v),
        Err(_) => None,
    }
}

impl<O: TextOutput, I: TextInput> IoLayer<O, I> {
    /// Asks until a line whose first field converts to an `F` arrives;
    /// `None` when the source ends first. Writes nothing but its prompt line
    /// and re-enter notices, and ends on its prompt when it succeeds.
    #[verifier::loop_isolation(false)]
    pub fn get_single_value<F: FromStr>(&mut self, prompt: &str) -> (r: Option<F>)
        ensures
            request_texts_only(
                old(self).output.log(),
                final(self).output.log(),
                prompt@,
                "?Re-enter\n"@,
            ),
            r is Some ==> final(self).output.log().len() > 0 && final(self).output.log().last()
                == prompt@ + "? "@,
    {
        let mut attempts: usize = usize::MAX;
        while attempts > 0
            invariant
                request_texts_only(old(self).output.log(), self.output.log(), prompt@, "?Re-enter\n"@),
            decreases attempts,
        {
            let line = prompt_line(prompt);
            self.output.write(line.as_str());
            let response = match self.input.read() {
                Some(r) => r,
                None => {
                    return None;
                },
            };
            let values = crate::parse::parse(response.as_str());
            if values.len() >= 1 {
                if let Some(result) = parse_value::<F>(&values[0]) {
                    return Some(result);
                }
            }
            self.output.write("?Re-enter\n");
            attempts = attempts - 1;
        }
        None
    }

    /// Asks until a line whose first two fields convert to an `F` and a `G`
    /// arrives; `None` when the source ends first. Writes nothing but its
    /// prompt line and re-enter notices, and ends on its prompt when it
    /// succeeds.
    #[verifier::loop_isolation(false)]
    pub fn get_two_values<F: FromStr, G: FromStr>(&mut self, prompt: &str) -> (r: Option<(F, G)>)
        ensures
            request_texts_only(
                old(self).output.log(),
                final(self).output.log(),
                prompt@,
                "?Re-enter"@,
            ),
            r is Some ==> final(self).output.log().len() > 0 && final(self).output.log().last()
                == prompt@ + "? "@,
    {
        let mut attempts: usize = usize::MAX;
        while attempts > 0
            invariant
                request_texts_only(old(self).output.log(), self.output.log(), prompt@, "?Re-enter"@),
            decreases attempts,
        {
            let line = prompt_line(prompt);
            self.output.write(line.as_str());
            let response = match self.input.read() {
                Some(r) => r,
                None => {
                    return None;
                },
            };
            let values = crate::parse::parse(response.as_str());
            if values.len() >= 2 {
                if let Some(first) = parse_value::<F>(&values[0]) {
                    if let Some(second) = parse_value::<G>(&values[1]) {
                        return Some((first, second));
                    }
                }
            }
            self.output.write("?Re-enter");
            attempts = attempts - 1;
        }
        None
    }

    /// Asks until a line whose first three fields convert arrives; `None`
    /// when the source ends first. Writes nothing but its prompt line and
    /// re-enter notices, and ends on its prompt when it succeeds.
    #[verifier::loop_isolation(false)]
    pub fn get_three_values<F: FromStr, G: FromStr, H: FromStr>(&mut self, prompt: &str) -> (r:
        Option<(F, G, H)>)
        ensures
            request_texts_only(
                old(self).output.log(),
                final(self).output.log(),
                prompt@,
                "?Re-enter"@,
            ),
            r is Some ==> final(self).output.log().len() > 0 && final(self).output.log().last()
                == prompt@ + "? "@,
    {
        let mut attempts: usize = usize::MAX;
        while attempts > 0
            invariant
                request_texts_only(old(self).output.log(), self.output.log(), prompt@, "?Re-enter"@),
            decreases attempts,
        {
            let line = prompt_line(prompt);
            self.output.write(line.as_str());
            let response = match self.input.read() {
                Some(r) => r,
                None => {
                    return None;
                },
            };
            let values = crate::parse::parse(response.as_str());
            if values.len() >= 3 {
                if let Some(first) = parse_value::<F>(&values[0]) {
                    if let Some(second) = parse_value::<G>(&values[1]) {
                        if let Some(third) = parse_value::<H>(&values[2]) {
                            return Some((first, second, third));
                        }
                    }
                }
            }
            self.output.write("?Re-enter");
            attempts = attempts - 1;
        }
        None
    }

    /// Asks until a line whose first four fields convert arrives; `None`
    /// when the source ends first. Writes nothing but its prompt line and
    /// re-enter notices, and ends on its prompt when it succeeds.
    #[verifier::loop_isolation(false)]
    pub fn get_four_values<F: FromStr, G: FromStr, H: FromStr, J: FromStr>(
        &mut self,
        prompt: &str,
    ) -> (r: Option<(F, G, H, J)>)
        ensures
            request_texts_only(
                old(self).output.log(),
                final(self).output.log(),
                prompt@,
                "?Re-enter"@,
            ),
            r is Some ==> final(self).output.log().len() > 0 && final(self).output.log().last()
                == prompt@ + "? "@,
    {
        let mut attempts: usize = usize::MAX;
        while attempts > 0
            invariant
                request_texts_only(old(self).output.log(), self.output.log(), prompt@, "?Re-enter"@),
            decreases attempts,
        {
            let line = prompt_line(prompt);
            self.output.write(line.as_str());
            let response = match self.input.read() {
                Some(r) => r,
                None => {
                    return None;
                },
            };
            let values = crate::parse::parse(response.as_str());
            if values.len() >= 4 {
                if let Some(first) = parse_value::<F>(&values[0]) {
                    if let Some(second) = parse_value::<G>(&values[1]) {
                        if let Some(third) = parse_value::<H>(&values[2]) {
                            if let Some(fourth) = parse_value::<J>(&values[3]) {
                                return Some((first, second, third, fourth));
                            }
                        }
                    }
                }
            }
            self.output.write("?Re-enter");
            attempts = attempts - 1;
        }
        None
    }
}

/// Prompts on the console until the first field of a line converts to an
/// `F`; `None` when standard input ends first.
pub fn input<F: FromStr>(prompt: &str) -> Option<F> {
    let mut io = IoLayer::get_io();
    io.get_single_value(prompt)
}

/// Prompts on the console until the first two fields of a line convert;
/// `None` when standard input ends first.
pub fn input2<F: FromStr, G: FromStr>(prompt: &str) -> Option<(F, G)> {
    let mut io = IoLayer::get_io();
    io.get_two_values(prompt)
}

/// Prompts on the console until the first three fields of a line convert;
/// `None` when standard input ends first.
pub fn input3<F: FromStr, G: FromStr, H: FromStr>(prompt: &str) -> Option<(F, G, H)> {
    let mut io = IoLayer::get_io();
    io.get_three_values(prompt)
}

/// Prompts on the console until the first four fields of a line convert;
/// `None` when standard input ends first.
pub fn input4<F: FromStr, G: FromStr, H: FromStr, J: FromStr>(prompt: &str) -> Option<
    (F, G, H, J),
> {
    let mut io = IoLayer::get_io();
    io.get_four_values(prompt)
}

} // verus!
