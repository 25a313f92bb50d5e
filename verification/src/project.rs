//! The project descriptor that lets editor tooling analyse a standalone
//! source file.
//!
//! The descriptor names the toolchain's library sources, the source file as
//! the root module, and the edition. It is written once: where a descriptor
//! is already present it is left alone, whatever it holds.
//!
//! Like the rebuild runner, the writer is a state machine without I/O. The
//! driver does what the state of [`Generate`] asks for and reports the
//! result through the transition of that state:
//!
//! * `Checking`: find out whether [`descriptor_file`] exists, then call
//!   [`Checking::on_exists`].
//! * `Querying`: run the toolchain with [`sysroot_query`] and capture its
//!   output, then call [`Querying::on_query`].
//! * `Writing`: write the rendered descriptor to [`descriptor_file`], then
//!   call [`Writing::on_written`].
//! * every other state is final; [`Generate::result`] is the outcome.
//!
//! Whether the descriptor exists is asked once and not again before the
//! write: the check is advisory. The toolchain's output reaches the writer
//! as text; decoding it is the driver's part.

use crate::edition::RustEdition;
use crate::logging::LogLevel;
use vstd::prelude::*;
use vstd::std_specs::iter::IteratorSpec;
use vstd::string::{StrSliceExecFns, StringExecFns};

verus! {

/// The record that the descriptor file holds.
#[derive(Debug, PartialEq, Eq)]
pub struct ProjectDescriptor {
    /// Where the sources of the toolchain's libraries are.
    pub sysroot_src: String,
    /// The source file that is the root module of the only crate.
    pub root_module: String,
    /// The edition of that crate.
    pub edition: RustEdition,
}

/// A [`ProjectDescriptor`] as plain values.
pub struct ProjectDescriptorView {
    pub sysroot_src: Seq<char>,
    pub root_module: Seq<char>,
    pub edition: RustEdition,
}

impl View for ProjectDescriptor {
    type V = ProjectDescriptorView;

    open spec fn view(&self) -> ProjectDescriptorView {
        ProjectDescriptorView {
            sysroot_src: self.sysroot_src@,
            root_module: self.root_module@,
            edition: self.edition,
        }
    }
}

/// The library sources of a toolchain that is installed at `sysroot`.
pub open spec fn library_sources(sysroot: Seq<char>) -> Seq<char> {
    sysroot + "/lib/rustlib/src/rust/library"@
}

impl ProjectDescriptorView {
    /// The descriptor for `root_file` and a toolchain installed at `sysroot`.
    pub open spec fn new(
        sysroot: Seq<char>,
        root_file: Seq<char>,
        edition: RustEdition,
    ) -> ProjectDescriptorView {
        ProjectDescriptorView { sysroot_src: library_sources(sysroot), root_module: root_file, edition }
    }

    /// The text of the descriptor file: one crate without dependencies. The
    /// paths are embedded as they are.
    pub open spec fn text(self) -> Seq<char> {
        "{\n\"sysroot_src\": \""@ + self.sysroot_src
            + "\",\n\"crates\": [\n    {\n        \"root_module\": \""@ + self.root_module
            + "\",\n        \"edition\": \""@ + self.edition.token()
            + "\",\n        \"deps\": []\n    }\n]\n}"@
    }
}

impl ProjectDescriptor {
    /// The descriptor for `root_file` and a toolchain installed at `sysroot`.
    pub fn new(
        sysroot: &str,
        root_file: String,
        edition: RustEdition,
    ) -> (descriptor: ProjectDescriptor)
        ensures
            descriptor@ == ProjectDescriptorView::new(sysroot@, root_file@, edition),
    {
        let mut sysroot_src = String::from_str(sysroot);
        sysroot_src.append("/lib/rustlib/src/rust/library");
        ProjectDescriptor { sysroot_src, root_module: root_file, edition }
    }

    /// Renders the text of the descriptor file.
    pub fn render(&self) -> (text: String)
        ensures
            text@ == self@.text(),
    {
        let mut text = String::from_str("{\n\"sysroot_src\": \"");
        text.append(self.sysroot_src.as_str());
        text.append("\",\n\"crates\": [\n    {\n        \"root_module\": \"");
        text.append(self.root_module.as_str());
        text.append("\",\n        \"edition\": \"");
        text.append(self.edition.as_str());
        text.append("\",\n        \"deps\": []\n    }\n]\n}");
        text
    }
}

/// The first line of `text`, without its line ending.
///
/// A line ends at a line feed; a carriage return directly before that line
/// feed belongs to the line ending. The last line needs no line ending. A
/// text without characters has no line.
pub open spec fn spec_first_line(text: Seq<char>) -> Option<Seq<char>> {
    match text.index_of_first('\n') {
        Some(end) => if end > 0 && text[end - 1] == '\r' {
            Some(text.take(end - 1))
        } else {
            Some(text.take(end))
        },
        None => if text.len() == 0 {
            None
        } else {
            Some(text)
        },
    }
}

/// The first line feed of a text is found where a line feed stands that has
/// none before it, and nowhere where no line feed stands at all.
pub proof fn first_line_feed(text: Seq<char>, end: int)
    requires
        0 <= end <= text.len(),
        forall|i: int| 0 <= i < end ==> text[i] != '\n',
        end < text.len() ==> text[end] == '\n',
    ensures
        text.index_of_first('\n') == if end < text.len() {
            Some(end)
        } else {
            None
        },
{
    text.index_of_first_ensures('\n');
    if end < text.len() {
        assert(text.contains('\n'));
    }
}

/// Only an empty text has no first line. A first line holds no line feed
/// and is the beginning of the text.
pub proof fn first_line_is_a_prefix(text: Seq<char>)
    ensures
        spec_first_line(text) is None <==> text.len() == 0,
        spec_first_line(text) matches Some(line) ==> !line.contains('\n') && line.is_prefix_of(text),
{
    text.index_of_first_ensures('\n');
}

/// The first line of `text`, without its line ending; `None` where the text
/// is empty.
pub fn first_line(text: &str) -> (line: Option<&str>)
    ensures
        line.deep_view() == spec_first_line(text@),
{
    let len: usize = text.unicode_len();
    let mut chars = text.chars();
    let mut end: usize = 0;
    let mut after_cr = false;
    let mut found = false;
    assert(text@.skip(0) =~= text@);
    while end < len && !found
        invariant
            len == text@.len(),
            end <= len,
            found ==> end < len,
            !found ==> chars.remaining() == text@.skip(end as int),
            forall|i: int| 0 <= i < end ==> text@[i] != '\n',
            found ==> text@[end as int] == '\n',
            after_cr <==> (end > 0 && text@[end - 1] == '\r'),
        decreases len - end + if found { 0int } else { 1int },
    {
        let ghost before = chars;
        let next = chars.next();
        proof {
            vstd::string::next_postcondition(&before, &chars, next);
            assert(text@.skip(end as int)[0] == text@[end as int]);
            assert(text@.skip(end as int).drop_first() =~= text@.skip(end + 1));
        }
        let c = next.unwrap();
        if c == '\n' {
            found = true;
        } else {
            after_cr = c == '\r';
            end += 1;
        }
    }
    proof {
        first_line_feed(text@, end as int);
    }
    if found {
        let stop: usize = if after_cr {
            end - 1
        } else {
            end
        };
        assert(text@.subrange(0, stop as int) =~= text@.take(stop as int));
        Some(text.substring_char(0, stop))
    } else if len == 0 {
        None
    } else {
        Some(text)
    }
}

/// The name of the descriptor file, relative to the working directory.
pub open spec fn spec_descriptor_file() -> Seq<char> {
    "rust-project.json"@
}

/// The arguments with which the toolchain prints its installation root.
pub open spec fn spec_sysroot_query() -> Seq<Seq<char>> {
    seq!["--print"@, "sysroot"@]
}

/// The name of the descriptor file, relative to the working directory.
pub fn descriptor_file() -> (name: &'static str)
    ensures
        name@ == spec_descriptor_file(),
{
    "rust-project.json"
}

/// The arguments with which the toolchain prints its installation root.
pub fn sysroot_query() -> (args: Vec<String>)
    ensures
        args.deep_view() == spec_sysroot_query(),
{
    let mut args: Vec<String> = Vec::new();
    args.push(String::from_str("--print"));
    args.push(String::from_str("sysroot"));
    assert(args.deep_view() =~= spec_sysroot_query());
    args
}

/// Why no descriptor could be written.
#[derive(Debug, PartialEq, Eq)]
pub enum ProjectError<E> {
    /// The environment failed: the existence check, the start of the query,
    /// or the write.
    Io(E),
    /// The toolchain printed nothing that could be its installation root.
    MissingSysroot,
}

/// What the toolchain answered to the query for its installation root.
#[derive(Debug, PartialEq, Eq)]
pub enum QueryOutcome {
    /// The toolchain ran and reported a failure.
    Unsuccessful,
    /// The toolchain ran and printed this on its standard output.
    Output(String),
}

/// It is not known yet whether a descriptor exists.
#[derive(Debug, PartialEq, Eq)]
pub struct Checking {
    /// The source file that the descriptor is for.
    pub root_file: String,
    /// The edition of that file.
    pub edition: RustEdition,
}

/// No descriptor exists; the installation root has to be asked for.
#[derive(Debug, PartialEq, Eq)]
pub struct Querying {
    /// The source file that the descriptor is for.
    pub root_file: String,
    /// The edition of that file.
    pub edition: RustEdition,
}

/// The descriptor is complete and has to be written.
#[derive(Debug, PartialEq, Eq)]
pub struct Writing {
    /// What the descriptor file is to hold.
    pub descriptor: ProjectDescriptor,
}

/// The states of the descriptor writer.
#[derive(Debug, PartialEq, Eq)]
pub enum Generate<E> {
    Checking(Checking),
    Querying(Querying),
    Writing(Writing),
    /// A descriptor was there already. It was neither read nor replaced.
    AlreadyPresent,
    /// The toolchain reported a failure. The descriptor is a convenience, so
    /// this is told and not treated as an error.
    Unavailable,
    /// The descriptor was written.
    Written,
    /// No descriptor was written.
    Failed(ProjectError<E>),
}

/// [`Checking`] as plain values.
pub struct CheckingView {
    pub root_file: Seq<char>,
    pub edition: RustEdition,
}

/// [`Querying`] as plain values.
pub struct QueryingView {
    pub root_file: Seq<char>,
    pub edition: RustEdition,
}

/// [`Writing`] as plain values.
pub struct WritingView {
    pub descriptor: ProjectDescriptorView,
}

/// [`Generate`] as plain values. The transitions of the writer are defined
/// on these.
pub enum GenerateView<E> {
    Checking(CheckingView),
    Querying(QueryingView),
    Writing(WritingView),
    AlreadyPresent,
    Unavailable,
    Written,
    Failed(ProjectError<E>),
}

impl View for Checking {
    type V = CheckingView;

    open spec fn view(&self) -> CheckingView {
        CheckingView { root_file: self.root_file@, edition: self.edition }
    }
}

impl View for Querying {
    type V = QueryingView;

    open spec fn view(&self) -> QueryingView {
        QueryingView { root_file: self.root_file@, edition: self.edition }
    }
}

impl View for Writing {
    type V = WritingView;

    open spec fn view(&self) -> WritingView {
        WritingView { descriptor: self.descriptor@ }
    }
}

impl<E> View for Generate<E> {
    type V = GenerateView<E>;

    open spec fn view(&self) -> GenerateView<E> {
        match self {
            Generate::Checking(checking) => GenerateView::Checking(checking@),
            Generate::Querying(querying) => GenerateView::Querying(querying@),
            Generate::Writing(writing) => GenerateView::Writing(writing@),
            Generate::AlreadyPresent => GenerateView::AlreadyPresent,
            Generate::Unavailable => GenerateView::Unavailable,
            Generate::Written => GenerateView::Written,
            Generate::Failed(error) => GenerateView::Failed(*error),
        }
    }
}

/// The state in which a run begins: nothing is known of the working
/// directory yet.
pub open spec fn begin<E>(root_file: Seq<char>, edition: RustEdition) -> GenerateView<E> {
    GenerateView::Checking(CheckingView { root_file, edition })
}

impl CheckingView {
    /// An existing descriptor ends the run at once; without one the
    /// toolchain is asked; a failed check is passed on.
    pub open spec fn on_exists<E>(self, exists: Result<bool, E>) -> GenerateView<E> {
        match exists {
            Ok(true) => GenerateView::AlreadyPresent,
            Ok(false) => GenerateView::Querying(
                QueryingView { root_file: self.root_file, edition: self.edition },
            ),
            Err(error) => GenerateView::Failed(ProjectError::Io(error)),
        }
    }
}

impl QueryingView {
    /// The first line of the toolchain's output is its installation root.
    /// A query that could not be started is passed on; so is an output
    /// without a first line. A toolchain that reports failure ends the run
    /// without a descriptor and without an error.
    pub open spec fn on_query<E>(self, outcome: Result<QueryOutcome, E>) -> GenerateView<E> {
        match outcome {
            Err(error) => GenerateView::Failed(ProjectError::Io(error)),
            Ok(QueryOutcome::Unsuccessful) => GenerateView::Unavailable,
            Ok(QueryOutcome::Output(output)) => match spec_first_line(output@) {
                Some(sysroot) => GenerateView::Writing(
                    WritingView {
                        descriptor: ProjectDescriptorView::new(sysroot, self.root_file, self.edition),
                    },
                ),
                None => GenerateView::Failed(ProjectError::MissingSysroot),
            },
        }
    }
}

impl WritingView {
    /// A failed write is passed on.
    pub open spec fn on_written<E>(self, written: Result<(), E>) -> GenerateView<E> {
        match written {
            Ok(_) => GenerateView::Written,
            Err(error) => GenerateView::Failed(ProjectError::Io(error)),
        }
    }
}

impl<E> GenerateView<E> {
    /// The driver has to start a process in this state.
    pub open spec fn invokes_process(self) -> bool {
        self is Querying
    }

    /// The driver has to write the descriptor file in this state.
    pub open spec fn writes_file(self) -> bool {
        self is Writing
    }

    /// The outcome of the run, once it has ended.
    pub open spec fn result(self) -> Option<Result<(), ProjectError<E>>> {
        match self {
            GenerateView::AlreadyPresent => Some(Ok(())),
            GenerateView::Unavailable => Some(Ok(())),
            GenerateView::Written => Some(Ok(())),
            GenerateView::Failed(error) => Some(Err(error)),
            _ => None,
        }
    }

    /// The log line that entering this state calls for.
    pub open spec fn notice(self) -> Option<(LogLevel, Seq<char>)> {
        match self {
            GenerateView::Unavailable => Some((LogLevel::ERROR, "Failed to get sysroot path"@)),
            _ => None,
        }
    }
}

/// Begins the writing of a descriptor for the source file `root_file`.
pub fn generate_project<E>(root_file: &str, edition: RustEdition) -> (next: Generate<E>)
    ensures
        next@ == begin::<E>(root_file@, edition),
{
    Generate::Checking(Checking { root_file: String::from_str(root_file), edition })
}

impl Checking {
    /// Takes the answer to whether the descriptor file exists.
    pub fn on_exists<E>(self, exists: Result<bool, E>) -> (next: Generate<E>)
        ensures
            next@ == self@.on_exists(exists),
    {
        match exists {
            Ok(true) => Generate::AlreadyPresent,
            Ok(false) => Generate::Querying(
                Querying { root_file: self.root_file, edition: self.edition },
            ),
            Err(error) => Generate::Failed(ProjectError::Io(error)),
        }
    }
}

impl Querying {
    /// Takes the toolchain's answer to the query, or the error with which
    /// the query failed to start.
    pub fn on_query<E>(self, outcome: Result<QueryOutcome, E>) -> (next: Generate<E>)
        ensures
            next@ == self@.on_query(outcome),
    {
        match outcome {
            Err(error) => Generate::Failed(ProjectError::Io(error)),
            Ok(QueryOutcome::Unsuccessful) => Generate::Unavailable,
            Ok(QueryOutcome::Output(output)) => match first_line(output.as_str()) {
                Some(sysroot) => Generate::Writing(
                    Writing {
                        descriptor: ProjectDescriptor::new(sysroot, self.root_file, self.edition),
                    },
                ),
                None => Generate::Failed(ProjectError::MissingSysroot),
            },
        }
    }
}

impl Writing {
    /// Takes the result of writing the descriptor file.
    pub fn on_written<E>(self, written: Result<(), E>) -> (next: Generate<E>)
        ensures
            next@ == self@.on_written(written),
    {
        match written {
            Ok(_) => Generate::Written,
            Err(error) => Generate::Failed(ProjectError::Io(error)),
        }
    }
}

impl<E> Generate<E> {
    /// The outcome of the run; `None` while it has not ended.
    pub fn result(self) -> (result: Option<Result<(), ProjectError<E>>>)
        ensures
            result == self@.result(),
    {
        match self {
            Generate::AlreadyPresent => Some(Ok(())),
            Generate::Unavailable => Some(Ok(())),
            Generate::Written => Some(Ok(())),
            Generate::Failed(error) => Some(Err(error)),
            _ => None,
        }
    }

    /// The log line that the driver writes on entering the state.
    pub fn notice(&self) -> (notice: Option<(LogLevel, &'static str)>)
        ensures
            match notice {
                Some((level, text)) => self@.notice() == Some((level, text@)),
                None => self@.notice() is None,
            },
    {
        match self {
            Generate::Unavailable => Some((LogLevel::ERROR, "Failed to get sysroot path")),
            _ => None,
        }
    }
}

/// A descriptor that is present ends the run with success: no process is
/// started and nothing is written.
pub proof fn present_descriptor_is_kept<E>(checking: CheckingView)
    ensures
        checking.on_exists::<E>(Ok(true)) == GenerateView::<E>::AlreadyPresent,
        !checking.on_exists::<E>(Ok(true)).invokes_process(),
        !checking.on_exists::<E>(Ok(true)).writes_file(),
        checking.on_exists::<E>(Ok(true)).result() == Some(Ok::<(), ProjectError<E>>(())),
{
}

/// A toolchain that prints nothing ends the run with an error, and nothing
/// is written.
pub proof fn empty_output_is_an_error<E>(querying: QueryingView, output: String)
    requires
        output@.len() == 0,
    ensures
        querying.on_query::<E>(Ok(QueryOutcome::Output(output))) == GenerateView::<E>::Failed(
            ProjectError::MissingSysroot,
        ),
        !querying.on_query::<E>(Ok(QueryOutcome::Output(output))).writes_file(),
{
    first_line_is_a_prefix(output@);
}

/// A descriptor is written only for a toolchain that ran with success and
/// printed a first line; it then holds the library sources under that line,
/// the source file as it was given, and the edition.
pub proof fn written_descriptor<E>(querying: QueryingView, outcome: Result<QueryOutcome, E>)
    ensures
        querying.on_query(outcome).writes_file() <==> (outcome matches Ok(
            QueryOutcome::Output(output),
        ) && output@.len() > 0),
        querying.on_query(outcome) matches GenerateView::Writing(writing) ==> (outcome matches Ok(
            QueryOutcome::Output(output),
        ) && spec_first_line(output@) matches Some(sysroot) && writing.descriptor == (
            ProjectDescriptorView {
                sysroot_src: library_sources(sysroot),
                root_module: querying.root_file,
                edition: querying.edition,
            }
        )),
{
    if let Ok(QueryOutcome::Output(output)) = outcome {
        first_line_is_a_prefix(output@);
    }
}

} // verus!
