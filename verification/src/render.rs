//! HTML rendering.
//!
//! A [`Renderer`] converts input text to HTML. The in-process
//! [`MarkdownRenderer`] parses the input as CommonMark; the
//! [`CommandRenderer`] holds the command template for an external renderer
//! process (the process I/O itself happens outside the library, which then
//! publishes the returned HTML).

use vstd::prelude::*;

verus! {

/// Why a rendering attempt failed. Only an external renderer process can
/// fail: it may not spawn, the pipe to it may break, or its output may not be
/// valid text. The in-process renderer never fails.
#[derive(Clone, Copy, Debug, PartialEq, Eq, Structural)]
pub enum RenderError {
    /// The renderer process could not be spawned.
    SpawnFailed,
    /// Writing the input to the process, or reading its output, failed.
    PipeBroken,
    /// The process output could not be decoded as valid text.
    InvalidOutput,
}

/// HTML renderer implementation.
///
/// Implementors of this trait convert input into HTML.
pub trait Renderer {
    /// Potential errors returned by the rendering. If rendering is infallible,
    /// no call returns an error (see `spec_can_render`).
    type Error;

    /// The HTML this renderer produces for `input`.
    spec fn spec_render(&self, input: Seq<char>) -> Seq<char>;

    /// The inputs on which rendering is guaranteed to succeed.
    spec fn spec_can_render(&self, input: Seq<char>) -> bool;

    /// Renders `input` as HTML.
    ///
    /// The HTML is appended to the `html` buffer, whose capacity is expected
    /// to be reserved by the caller.
    fn render(&self, input: &str, html: &mut String) -> (result: Result<(), Self::Error>)
        ensures
            result is Ok ==> final(html)@ == old(html)@ + self.spec_render(input@),
            self.spec_can_render(input@) ==> result is Ok,
    ;

    /// A hint for how many bytes the output will be.
    ///
    /// The hint should be cheap to compute and is not required to be accurate;
    /// it is used only to pre-size output buffers.
    fn size_hint(&self, input: &str) -> usize;
}

/// The CommonMark rendering of `input`, with the tables, footnotes,
/// strikethrough and task-list extensions enabled. A function of the input
/// alone; its value is fixed by the in-process parser.
pub uninterp spec fn cmark_html_of(input: Seq<char>) -> Seq<char>;

/// Relies on pulldown_cmark::html::push_html over
/// pulldown_cmark::Parser::new_ext: appends to `out` the CommonMark rendering
/// of `input` with tables, footnotes, strikethrough and task lists enabled,
/// which depends on the input characters alone.
#[verifier::external_body]
fn push_cmark_html(input: &str, out: &mut String)
    ensures
        final(out)@ == old(out)@ + cmark_html_of(input@),
{
    let options = pulldown_cmark::Options::ENABLE_TABLES | pulldown_cmark::Options::ENABLE_FOOTNOTES
        | pulldown_cmark::Options::ENABLE_STRIKETHROUGH
        | pulldown_cmark::Options::ENABLE_TASKLISTS;
    let parser = pulldown_cmark::Parser::new_ext(input, options);
    pulldown_cmark::html::push_html(out, parser);
}

/// Relies on String::with_capacity: the new string is empty, with at least
/// the given capacity reserved.
#[verifier::external_body]
pub(crate) fn string_with_capacity(capacity: usize) -> (out: String)
    ensures
        out@ == Seq::<char>::empty(),
{
    String::with_capacity(capacity)
}

/// Renders a markdown string to an HTML string using the in-process
/// CommonMark renderer, with the tables, footnotes, strikethrough and
/// task-list extensions enabled.
pub fn to_html_cmark(markdown: &str) -> (html: String)
    ensures
        html@ == cmark_html_of(markdown@),
{
    let mut out = String::new();
    push_cmark_html(markdown, &mut out);
    proof {
        assert(Seq::<char>::empty() + cmark_html_of(markdown@) =~= cmark_html_of(markdown@));
    }
    out
}

/// Markdown renderer that parses the input in-process as CommonMark.
pub struct MarkdownRenderer {}

impl MarkdownRenderer {
    /// Create a new instance of the renderer.
    pub fn new() -> (renderer: MarkdownRenderer) {
        MarkdownRenderer {}
    }
}

impl Default for MarkdownRenderer {
    fn default() -> (renderer: Self) {
        MarkdownRenderer::new()
    }
}

impl Renderer for MarkdownRenderer {
    type Error = RenderError;

    /// In-process rendering is the CommonMark rendering.
    open spec fn spec_render(&self, input: Seq<char>) -> Seq<char> {
        cmark_html_of(input)
    }

    /// Markdown rendering is infallible: every input produces HTML.
    open spec fn spec_can_render(&self, input: Seq<char>) -> bool {
        true
    }

    fn render(&self, input: &str, html: &mut String) -> (result: Result<(), RenderError>) {
        push_cmark_html(input, html);
        Ok(())
    }

    /// One and a half times the input length, an empirical buffer-sizing
    /// heuristic.
    fn size_hint(&self, input: &str) -> usize {
        let len = input.len();
        if len <= usize::MAX - len / 2 {
            len + len / 2
        } else {
            usize::MAX
        }
    }
}

/// The command template for a renderer that runs as an external process:
/// program name plus arguments. Each render call is expected to spawn a fresh
/// process that reads the input on its standard input and prints the HTML on
/// its standard output; spawning and pipe I/O happen outside the library,
/// which then publishes the returned HTML.
pub struct CommandRenderer {
    program: String,
    args: Vec<String>,
}

impl CommandRenderer {
    /// The program to spawn.
    pub closed spec fn spec_program(&self) -> Seq<char> {
        self.program@
    }

    /// The arguments handed to the program, in order.
    pub closed spec fn spec_args(&self) -> Seq<Seq<char>> {
        self.args.deep_view()
    }

    /// Create a new external command renderer that will spawn processes
    /// running `program` with `args`.
    pub fn new(program: String, args: Vec<String>) -> (renderer: CommandRenderer)
        ensures
            renderer.spec_program() == program@,
            renderer.spec_args() == args.deep_view(),
    {
        CommandRenderer { program, args }
    }

    /// The program to spawn.
    pub fn program(&self) -> (program: &String)
        ensures
            program@ == self.spec_program(),
    {
        &self.program
    }

    /// The arguments handed to the program, in order.
    pub fn args(&self) -> (args: &Vec<String>)
        ensures
            args.deep_view() == self.spec_args(),
    {
        &self.args
    }
}

} // verus!
