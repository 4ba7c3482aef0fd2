use swc_class_decorator::report::report;
use swc_class_decorator::{Config, LogLevel, Report};

fn strings(items: &[&str]) -> Vec<String> {
    items.iter().map(|item| item.to_string()).collect()
}

fn found(with_dump: bool, class_name: &str, ctor_args: &[&str]) -> Report {
    Report { with_dump, class_name: class_name.to_string(), ctor_args: strings(ctor_args) }
}

#[test]
fn default_configuration_reports_nothing() {
    assert_eq!(Config::default(), Config { log: LogLevel::Off });
    assert_eq!(LogLevel::default(), LogLevel::Off);
}

#[test]
fn nothing_is_reported_when_off() {
    assert_eq!(report(LogLevel::Off, "Sample", &strings(&["SampleApi"])), None);
}

#[test]
fn info_reports_without_dump() {
    assert_eq!(
        report(LogLevel::Info, "Sample", &strings(&["A", "B"])),
        Some(found(false, "Sample", &["A", "B"]))
    );
}

#[test]
fn debug_reports_with_dump() {
    assert_eq!(
        report(LogLevel::Debug, "Sample", &strings(&[])),
        Some(found(true, "Sample", &[]))
    );
}

#[test]
fn line_joins_type_names_with_comma_and_space() {
    assert_eq!(
        found(false, "Sample", &["Foo", "Bar", "Baz"]).line(),
        "swc-class-decorator-plugin - Processing class : Sample, found constructor arguments : [Foo, Bar, Baz]"
    );
}

#[test]
fn line_with_one_type_name_has_no_separator() {
    assert_eq!(
        found(false, "Sample", &["SampleApi"]).line(),
        "swc-class-decorator-plugin - Processing class : Sample, found constructor arguments : [SampleApi]"
    );
}

#[test]
fn line_with_no_type_names_has_empty_brackets() {
    assert_eq!(
        found(true, "Empty", &[]).line(),
        "swc-class-decorator-plugin - Processing class : Empty, found constructor arguments : []"
    );
}

#[test]
fn text_without_dump_is_the_line() {
    let info = found(false, "Sample", &["Foo", "Bar"]);
    assert_eq!(info.text("never read"), info.line());
    assert_eq!(
        info.text(""),
        "swc-class-decorator-plugin - Processing class : Sample, found constructor arguments : [Foo, Bar]"
    );
}

#[test]
fn text_with_dump_embeds_the_rendering() {
    let debug = found(true, "Sample", &["Foo", "Bar"]);
    assert_eq!(
        debug.text("Class { body: [] }"),
        "\nswc-class-decorator-plugin - Processing class : Sample, found constructor arguments : [Foo, Bar] \n ------------------ \n Class { body: [] }\n"
    );
}

#[test]
fn text_with_empty_dump_keeps_the_frame() {
    assert_eq!(
        found(true, "E", &[]).text(""),
        "\nswc-class-decorator-plugin - Processing class : E, found constructor arguments : [] \n ------------------ \n \n"
    );
}
