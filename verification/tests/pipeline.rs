use muscat::pipeline::{execute, Action, Event, Pipeline, PipelineError, RenderError};
use std::collections::{BTreeMap, BTreeSet};

/// Files held in memory, some of which refuse to be written.
struct Disk {
    files: BTreeMap<String, String>,
    locked: BTreeSet<String>,
    writes: Vec<String>,
}

impl Disk {
    fn new(files: &[(&str, &str)]) -> Disk {
        Disk {
            files: files.iter().map(|(path, text)| (path.to_string(), text.to_string())).collect(),
            locked: BTreeSet::new(),
            writes: Vec::new(),
        }
    }

    fn text(&self, path: &str) -> Option<&str> {
        self.files.get(path).map(|text| text.as_str())
    }
}

fn render(template: &str, data: &serde_json::Value) -> Result<String, RenderError> {
    let compiled = mustache::compile_str(template).map_err(|_| RenderError::SyntaxError)?;
    compiled.render_to_string(data).map_err(|_| RenderError::InternalFailure)
}

/// Does what a run asks for until the run is over.
fn drive(mut run: Pipeline, disk: &mut Disk) -> Result<(), PipelineError> {
    let mut action = run.pending();
    for _ in 0..10_000 {
        let event = match action {
            Action::ReadData(path) => Event::DataRead(disk.files.get(&path).cloned()),
            Action::ReadTemplate(path) => Event::TemplateRead(disk.files.get(&path).cloned()),
            Action::Render(template) => {
                let data = run.data().expect("a run renders after its data is loaded");
                Event::Rendered(render(&template, data.value()))
            }
            Action::Write { path, text } => {
                if disk.locked.contains(&path) {
                    Event::Written(Err(format!("{} is locked", path)))
                } else {
                    disk.writes.push(path.clone());
                    disk.files.insert(path, text);
                    Event::Written(Ok(()))
                }
            }
            Action::Finish(outcome) => return outcome,
        };
        action = run.step(event);
    }
    panic!("the run does not end");
}

fn paths(list: &[&str]) -> Vec<String> {
    list.iter().map(|path| path.to_string()).collect()
}

#[test]
fn stylesheet_is_rendered_from_its_template() {
    let mut disk = Disk::new(&[
        ("data.json", "{\"color\":\"#fff\"}"),
        ("style.css", "old"),
        ("style-temp.css", "body{color:{{color}}}"),
    ]);
    let outcome = drive(execute(paths(&["style.css"]), "data.json".to_string()), &mut disk);
    assert_eq!(outcome, Ok(()));
    assert_eq!(disk.text("style.css"), Some("body{color:#fff}"));
    assert_eq!(disk.text("style-temp.css"), Some("body{color:{{color}}}"));
}

#[test]
fn run_asks_for_each_thing_in_turn() {
    let mut run = execute(paths(&["a.conf", "b"]), "theme.json".to_string());
    assert_eq!(run.pending(), Action::ReadData("theme.json".to_string()));
    assert!(run.data().is_none());
    assert_eq!(
        run.step(Event::DataRead(Some("{}".to_string()))),
        Action::ReadTemplate("a-temp.conf".to_string())
    );
    assert!(run.data().is_some());
    assert_eq!(
        run.step(Event::TemplateRead(Some("one".to_string()))),
        Action::Render("one".to_string())
    );
    assert_eq!(
        run.step(Event::Rendered(Ok("ONE".to_string()))),
        Action::Write { path: "a.conf".to_string(), text: "ONE".to_string() }
    );
    assert_eq!(run.step(Event::Written(Ok(()))), Action::ReadTemplate("b-temp".to_string()));
    assert_eq!(
        run.step(Event::TemplateRead(Some("two".to_string()))),
        Action::Render("two".to_string())
    );
    assert_eq!(
        run.step(Event::Rendered(Ok("TWO".to_string()))),
        Action::Write { path: "b".to_string(), text: "TWO".to_string() }
    );
    assert_eq!(run.step(Event::Written(Ok(()))), Action::Finish(Ok(())));
    assert_eq!(run.pending(), Action::Finish(Ok(())));
}

#[test]
fn run_without_targets_only_loads_the_data() {
    let mut run = execute(Vec::new(), "theme.json".to_string());
    assert_eq!(run.step(Event::DataRead(Some("[1, 2]".to_string()))), Action::Finish(Ok(())));
}

#[test]
fn event_that_answers_nothing_is_passed_over() {
    let mut run = execute(paths(&["a"]), "d.json".to_string());
    assert_eq!(
        run.step(Event::Written(Ok(()))),
        Action::ReadData("d.json".to_string())
    );
    assert_eq!(
        run.step(Event::Rendered(Ok("x".to_string()))),
        Action::ReadData("d.json".to_string())
    );
    run.step(Event::DataRead(Some("{}".to_string())));
    assert_eq!(
        run.step(Event::DataRead(Some("not json".to_string()))),
        Action::ReadTemplate("a-temp".to_string())
    );
    run.step(Event::TemplateRead(None));
    assert_eq!(
        run.step(Event::TemplateRead(Some("t".to_string()))),
        Action::Finish(Err(PipelineError::TemplateMissing("a".to_string())))
    );
}

#[test]
fn invalid_data_modifies_no_target() {
    let files = [
        ("data.json", "{\"color\":"),
        ("a.css", "old a"),
        ("a-temp.css", "{{color}}"),
        ("b.css", "old b"),
        ("b-temp.css", "{{color}}"),
    ];
    let mut disk = Disk::new(&files);
    let outcome = drive(execute(paths(&["a.css", "b.css"]), "data.json".to_string()), &mut disk);
    assert_eq!(outcome, Err(PipelineError::DataLoad));
    assert!(disk.writes.is_empty());
    assert_eq!(disk.files, Disk::new(&files).files);
}

#[test]
fn missing_data_file_modifies_no_target() {
    let mut disk = Disk::new(&[("a.css", "old a"), ("a-temp.css", "x")]);
    let outcome = drive(execute(paths(&["a.css"]), "data.json".to_string()), &mut disk);
    assert_eq!(outcome, Err(PipelineError::DataLoad));
    assert_eq!(disk.text("a.css"), Some("old a"));
}

#[test]
fn missing_template_stops_after_earlier_writes() {
    let mut disk = Disk::new(&[
        ("data.json", "{\"name\":\"mocha\"}"),
        ("one.conf", "old one"),
        ("one-temp.conf", "theme={{name}}"),
        ("two.conf", "old two"),
        ("three.conf", "old three"),
        ("three-temp.conf", "theme={{name}}"),
    ]);
    let run = execute(paths(&["one.conf", "two.conf", "three.conf"]), "data.json".to_string());
    let outcome = drive(run, &mut disk);
    assert_eq!(outcome, Err(PipelineError::TemplateMissing("two.conf".to_string())));
    assert_eq!(disk.text("one.conf"), Some("theme=mocha"));
    assert_eq!(disk.text("two.conf"), Some("old two"));
    assert_eq!(disk.text("three.conf"), Some("old three"));
    assert_eq!(disk.writes, paths(&["one.conf"]));
}

#[test]
fn malformed_template_is_a_syntax_error() {
    let mut disk = Disk::new(&[
        ("data.json", "{}"),
        ("a.txt", "old"),
        ("a-temp.txt", "{{#open}}never closed"),
        ("b.txt", "old b"),
        ("b-temp.txt", "fine"),
    ]);
    let outcome = drive(execute(paths(&["a.txt", "b.txt"]), "data.json".to_string()), &mut disk);
    assert_eq!(
        outcome,
        Err(PipelineError::RenderFailed("a.txt".to_string(), RenderError::SyntaxError))
    );
    assert_eq!(disk.text("a.txt"), Some("old"));
    assert_eq!(disk.text("b.txt"), Some("old b"));
}

#[test]
fn render_failure_is_reported_with_its_cause() {
    let mut run = execute(paths(&["a"]), "d.json".to_string());
    run.step(Event::DataRead(Some("{}".to_string())));
    run.step(Event::TemplateRead(Some("t".to_string())));
    assert_eq!(
        run.step(Event::Rendered(Err(RenderError::InternalFailure))),
        Action::Finish(Err(PipelineError::RenderFailed(
            "a".to_string(),
            RenderError::InternalFailure
        )))
    );
}

#[test]
fn refused_write_stops_the_run() {
    let mut disk = Disk::new(&[
        ("data.json", "{\"v\":1}"),
        ("first", "old first"),
        ("first-temp", "v{{v}}"),
        ("second", "old second"),
        ("second-temp", "v{{v}}"),
        ("third", "old third"),
        ("third-temp", "v{{v}}"),
    ]);
    disk.locked.insert("second".to_string());
    let outcome =
        drive(execute(paths(&["first", "second", "third"]), "data.json".to_string()), &mut disk);
    assert_eq!(
        outcome,
        Err(PipelineError::WriteFailed("second".to_string(), "second is locked".to_string()))
    );
    assert_eq!(disk.text("first"), Some("v1"));
    assert_eq!(disk.text("second"), Some("old second"));
    assert_eq!(disk.text("third"), Some("old third"));
}

#[test]
fn targets_are_handled_in_list_order() {
    let mut disk = Disk::new(&[
        ("d.json", "{}"),
        ("z-temp", "z"),
        ("a-temp", "a"),
        ("m-temp", "m"),
    ]);
    let outcome = drive(execute(paths(&["z", "a", "m"]), "d.json".to_string()), &mut disk);
    assert_eq!(outcome, Ok(()));
    assert_eq!(disk.writes, paths(&["z", "a", "m"]));
}

#[test]
fn literal_template_is_written_unchanged() {
    let literal = "plain text, no tags\n  second line } with { braces\n";
    let mut disk = Disk::new(&[
        ("d.json", "{\"plain\": [1, true, null, {\"k\": \"v\"}]}"),
        ("notes-temp.txt", literal),
    ]);
    let outcome = drive(execute(paths(&["notes.txt"]), "d.json".to_string()), &mut disk);
    assert_eq!(outcome, Ok(()));
    assert_eq!(disk.text("notes.txt"), Some(literal));
}

#[test]
fn undefined_variable_renders_as_nothing() {
    let mut disk = Disk::new(&[("d.json", "{}"), ("a-temp", "[{{missing}}]")]);
    let outcome = drive(execute(paths(&["a"]), "d.json".to_string()), &mut disk);
    assert_eq!(outcome, Ok(()));
    assert_eq!(disk.text("a"), Some("[]"));
}

#[test]
fn second_run_leaves_the_same_files() {
    let mut disk = Disk::new(&[
        ("data.json", "{\"fg\":\"#cdd6f4\",\"items\":[\"a\",\"b\"]}"),
        ("one.conf", "old"),
        ("one-temp.conf", "fg={{fg}}"),
        ("two-temp", "{{#items}}<{{.}}>{{/items}}"),
        ("three.ini", "old three"),
    ]);
    let targets = ["one.conf", "two", "three.ini"];
    let first = drive(execute(paths(&targets), "data.json".to_string()), &mut disk);
    let after_first = disk.files.clone();
    let second = drive(execute(paths(&targets), "data.json".to_string()), &mut disk);
    assert_eq!(first, Err(PipelineError::TemplateMissing("three.ini".to_string())));
    assert_eq!(second, first);
    assert_eq!(disk.files, after_first);
    assert_eq!(disk.text("one.conf"), Some("fg=#cdd6f4"));
    assert_eq!(disk.text("two"), Some("<a><b>"));
}

#[test]
fn second_run_differs_where_a_target_is_a_template() {
    let mut disk = Disk::new(&[
        ("d.json", "{\"v\":\"x\"}"),
        ("a-temp.css", "first {{v}}"),
        ("a-temp-temp.css", "second {{v}}"),
    ]);
    let targets = ["a.css", "a-temp.css"];
    assert_eq!(drive(execute(paths(&targets), "d.json".to_string()), &mut disk), Ok(()));
    assert_eq!(disk.text("a.css"), Some("first x"));
    assert_eq!(drive(execute(paths(&targets), "d.json".to_string()), &mut disk), Ok(()));
    assert_eq!(disk.text("a.css"), Some("second x"));
}

#[test]
fn exit_codes_are_one_for_each_kind_of_error() {
    let errors = [
        PipelineError::DataLoad,
        PipelineError::TemplateMissing("t".to_string()),
        PipelineError::RenderFailed("t".to_string(), RenderError::SyntaxError),
        PipelineError::RenderFailed("t".to_string(), RenderError::InternalFailure),
        PipelineError::WriteFailed("t".to_string(), "denied".to_string()),
    ];
    let codes: Vec<u8> = errors.iter().map(|error| error.exit_code()).collect();
    assert_eq!(codes, vec![2, 3, 4, 5, 6]);
    assert_eq!(PipelineError::TemplateMissing("other".to_string()).exit_code(), 3);
}

#[test]
fn error_clone_is_equal() {
    let error = PipelineError::WriteFailed("t".to_string(), "denied".to_string());
    assert_eq!(error.clone(), error);
}
