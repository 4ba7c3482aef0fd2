//! What a pass says about the classes it has processed.
//!
//! A [`Report`] records what was found in one class. It is a value, not an
//! effect: the caller decides where the text goes. At the `Debug` level the
//! text embeds a rendering of the class node, which the caller supplies.

use crate::config::LogLevel;
use vstd::prelude::*;
use vstd::string::*;

verus! {

/// What was found in one named class.
#[derive(Debug, PartialEq, Eq)]
pub struct Report {
    /// Whether a rendering of the class node follows the line.
    pub with_dump: bool,
    pub class_name: String,
    /// The type names found, in order.
    pub ctor_args: Vec<String>,
}

/// What a [`Report`] holds.
pub struct ReportView {
    pub with_dump: bool,
    pub class_name: Seq<char>,
    pub ctor_args: Seq<Seq<char>>,
}

impl View for Report {
    type V = ReportView;

    open spec fn view(&self) -> ReportView {
        ReportView {
            with_dump: self.with_dump,
            class_name: self.class_name@,
            ctor_args: self.ctor_args.deep_view(),
        }
    }
}

impl DeepView for Report {
    type V = ReportView;

    open spec fn deep_view(&self) -> ReportView {
        self@
    }
}

/// The items of `items`, with `separator` between each two neighbours.
pub open spec fn joined(items: Seq<Seq<char>>, separator: Seq<char>) -> Seq<char>
    decreases items.len(),
{
    if items.len() == 0 {
        Seq::empty()
    } else if items.len() == 1 {
        items[0]
    } else {
        joined(items.drop_last(), separator) + separator + items.last()
    }
}

impl ReportView {
    /// The line that names the class and lists the type names found,
    /// separated by a comma and a space.
    pub open spec fn line(self) -> Seq<char> {
        "swc-class-decorator-plugin - Processing class : "@ + self.class_name
            + ", found constructor arguments : ["@ + joined(self.ctor_args, ", "@) + "]"@
    }

    /// The whole text of the report. With a dump the line stands between
    /// line breaks, and the rendering `dump` of the class node follows it
    /// below a rule.
    pub open spec fn text(self, dump: Seq<char>) -> Seq<char> {
        if self.with_dump {
            "\n"@ + self.line() + " \n ------------------ \n "@ + dump + "\n"@
        } else {
            self.line()
        }
    }
}

/// What is reported at `level` about a class named `class_name` in which the
/// type names `ctor_args` were found.
pub open spec fn report_for(
    level: LogLevel,
    class_name: Seq<char>,
    ctor_args: Seq<Seq<char>>,
) -> Option<ReportView> {
    match level {
        LogLevel::Off => None,
        LogLevel::Info => Some(ReportView { with_dump: false, class_name, ctor_args }),
        LogLevel::Debug => Some(ReportView { with_dump: true, class_name, ctor_args }),
    }
}

/// A copy of `items`.
fn copy_strings(items: &Vec<String>) -> (copy: Vec<String>)
    ensures
        copy.deep_view() == items.deep_view(),
{
    let mut copy: Vec<String> = Vec::new();
    let mut i: usize = 0;
    while i < items.len()
        invariant
            i <= items.len(),
            copy@.len() == i,
            forall|j: int| 0 <= j < i ==> copy@[j]@ == items@[j]@,
        decreases items.len() - i,
    {
        copy.push(items[i].clone());
        i += 1;
    }
    assert(copy.deep_view() =~= items.deep_view());
    copy
}

/// `items` with `separator` between each two neighbours.
fn join(items: &Vec<String>, separator: &str) -> (text: String)
    ensures
        text@ == joined(items.deep_view(), separator@),
{
    let mut text = String::new();
    let mut i: usize = 0;
    while i < items.len()
        invariant
            i <= items.len(),
            text@ == joined(items.deep_view().take(i as int), separator@),
        decreases items.len() - i,
    {
        let ghost done = items.deep_view().take(i as int);
        let ghost next = items.deep_view().take(i + 1);
        assert(next.drop_last() =~= done);
        assert(next.last() == items@[i as int]@);
        if i > 0 {
            text.append(separator);
        }
        text.append(items[i].as_str());
        assert(text@ =~= joined(next, separator@));
        i += 1;
    }
    assert(items.deep_view().take(items.len() as int) =~= items.deep_view());
    text
}

/// The report that the level `level` asks for about a class named
/// `class_name` in which the type names `ctor_args` were found: none when
/// reporting is off.
pub fn report(level: LogLevel, class_name: &str, ctor_args: &Vec<String>) -> (report: Option<
    Report,
>)
    ensures
        report.deep_view() == report_for(level, class_name@, ctor_args.deep_view()),
{
    match level {
        LogLevel::Off => None,
        LogLevel::Info => Some(
            Report {
                with_dump: false,
                class_name: class_name.to_string(),
                ctor_args: copy_strings(ctor_args),
            },
        ),
        LogLevel::Debug => Some(
            Report {
                with_dump: true,
                class_name: class_name.to_string(),
                ctor_args: copy_strings(ctor_args),
            },
        ),
    }
}

impl Report {
    /// The line that names the class and lists the type names found.
    pub fn line(&self) -> (line: String)
        ensures
            line@ == self@.line(),
    {
        let mut line = String::from_str("swc-class-decorator-plugin - Processing class : ");
        line.append(self.class_name.as_str());
        line.append(", found constructor arguments : [");
        let args = join(&self.ctor_args, ", ");
        line.append(args.as_str());
        line.append("]");
        line
    }

    /// The text to emit for this report, where `dump` is a rendering of the
    /// class node as the pass has left it. `dump` is read only if the report
    /// is one `with_dump`.
    pub fn text(&self, dump: &str) -> (text: String)
        ensures
            text@ == self@.text(dump@),
    {
        let line = self.line();
        if self.with_dump {
            let mut text = String::from_str("\n");
            text.append(line.as_str());
            text.append(" \n ------------------ \n ");
            text.append(dump);
            text.append("\n");
            text
        } else {
            line
        }
    }
}

} // verus!
