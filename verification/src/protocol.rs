//! The render protocol: what a render call hands the typesetting engine
//! and what it gets back, and the settling of an engine reply into the
//! caller's macro environment and result.

use vstd::prelude::*;

verus! {

/// Which markup the engine is asked to produce: glyph markup,
/// accessibility markup, or both.
#[derive(Debug, Clone, Copy, PartialEq, Eq, Structural)]
pub enum KatexOutput {
    Html,
    Mathml,
    HtmlAndMathml,
}

/// A macro environment: the caller-visible mapping from macro name to
/// replacement text, threaded through successive render calls so that
/// macros defined in one expression serve the next.
#[derive(Debug, Clone, Default)]
pub struct MacroEnv {
    pub entries: Vec<(String, String)>,
}

impl View for MacroEnv {
    type V = Seq<(Seq<char>, Seq<char>)>;

    open spec fn view(&self) -> Seq<(Seq<char>, Seq<char>)> {
        self.entries@.map_values(|p: (String, String)| (p.0@, p.1@))
    }
}

impl MacroEnv {
    /// A mapping with no macro defined.
    pub fn new() -> (r: Self)
        ensures
            r@ == Seq::<(Seq<char>, Seq<char>)>::empty(),
    {
        let r = MacroEnv { entries: Vec::new() };
        proof {
            assert(r@ =~= Seq::<(Seq<char>, Seq<char>)>::empty());
        }
        r
    }

    /// A copy holding the same mapping.
    pub fn duplicate(&self) -> (r: Self)
        ensures
            r@ == self@,
    {
        let mut entries: Vec<(String, String)> = Vec::new();
        let mut i: usize = 0;
        while i < self.entries.len()
            invariant
                i <= self.entries@.len(),
                entries@.len() == i,
                forall|j: int| 0 <= j < i ==> #[trigger] entries@[j].0@ == self.entries@[j].0@
                    && entries@[j].1@ == self.entries@[j].1@,
            decreases self.entries@.len() - i,
        {
            let name = self.entries[i].0.clone();
            let value = self.entries[i].1.clone();
            entries.push((name, value));
            i = i + 1;
        }
        let r = MacroEnv { entries };
        proof {
            assert(r@ =~= self@);
        }
        r
    }
}

/// What the engine reported for one render call: the markup on success,
/// its own user-facing message on a recognized input failure, and in both
/// cases the macro environment as the call left it.
#[derive(Debug, Clone)]
pub enum EngineOutput {
    Success { html: String, macros: MacroEnv },
    Failure { error: String, macros: MacroEnv },
}

/// What a render call can end in besides markup: the engine itself failed,
/// the reply path broke, or the engine rejected the expression.
#[derive(Debug, Clone)]
pub enum Error {
    /// The engine failed to execute or its reply could not be decoded;
    /// fatal for this call alone.
    JSError(String),
    /// Waiting for the worker's reply failed.
    RecvError,
    /// Handing the request to the worker failed.
    SendError,
    /// The engine ran and rejected the expression: its message, the
    /// expression itself, and the macro state as of the failure.
    KaTeXError { message: String, latex: String, macros: MacroEnv },
}

/// Settles one engine reply: the caller's macro environment takes the
/// returned mapping whether the call succeeded or failed, and the result
/// carries the markup, or the engine's message with the expression and the
/// macro state at failure time.
pub fn finish_render(latex: &str, out: EngineOutput, macros: &mut MacroEnv) -> (r: Result<
    String,
    Error,
>)
    ensures
        match out {
            EngineOutput::Success { html, macros: m } => final(macros)@ == m@ && (r matches Ok(h)
                && h == html),
            EngineOutput::Failure { error, macros: m } => final(macros)@ == m@ && (r matches Err(
                Error::KaTeXError { message, latex: lx, macros: em },
            ) && message == error && lx@ == latex@ && em@ == m@),
        },
{
    match out {
        EngineOutput::Success { html, macros: m } => {
            *macros = m;
            Ok(html)
        },
        EngineOutput::Failure { error, macros: m } => {
            *macros = m.duplicate();
            Err(Error::KaTeXError { message: error, latex: latex.to_owned(), macros: m })
        },
    }
}

} // verus!
