use std::collections::HashMap;

use vscode_kit::generator::Action;
use vscode_kit::generator::Event;
use vscode_kit::generator::Generation;
use vscode_kit::generator::GenerationSummary;
use vscode_kit::generator::OverwritePolicy;
use vscode_kit::generator::Target;
use vscode_kit::command::selection_or_default;
use vscode_kit::generator::generate;
use vscode_kit::generator::generate_with_prompt;
use vscode_kit::templates::Preset;
use vscode_kit::templates::TemplateKind;
use vscode_kit::templates::embedded_template;
use vscode_kit::templates::filename_for;
use vscode_kit::templates::load_template;

/// A project held in memory: target files by name, override files by name.
struct Project {
    files: HashMap<&'static str, String>,
    overrides: HashMap<&'static str, String>,
    answer: bool,
    dir_error: Option<String>,
    write_error: Option<(TemplateKind, String)>,
    writes: usize,
    questions: usize,
}

impl Project {
    fn empty() -> Project {
        Project {
            files: HashMap::new(),
            overrides: HashMap::new(),
            answer: false,
            dir_error: None,
            write_error: None,
            writes: 0,
            questions: 0,
        }
    }

    fn drive(&mut self, mut g: Generation) -> GenerationSummary {
        loop {
            let event = match g.next_action() {
                Action::CreateConfigDir => match &self.dir_error {
                    Some(m) => Event::ConfigDirFailed(m.clone()),
                    None => Event::ConfigDirCreated,
                },
                Action::Probe(k) => Event::Probed(self.files.contains_key(filename_for(k))),
                Action::Confirm(_) => {
                    self.questions += 1;
                    Event::Confirmed(self.answer)
                }
                Action::Write(k) => match &self.write_error {
                    Some((bad, m)) if *bad == k => Event::WriteFailed(m.clone()),
                    _ => self.write(g.preset(), k),
                },
                Action::Finish => break,
            };
            g.step(event);
        }
        assert!(g.is_finished());
        g.into_summary()
    }

    fn write(&mut self, preset: Preset, k: TemplateKind) -> Event {
        let name = filename_for(k);
        let content = load_template(preset, k, self.overrides.get(name).cloned());
        self.files.insert(name, content);
        self.writes += 1;
        Event::Written
    }
}

const ALL: [TemplateKind; 3] = [TemplateKind::Launch, TemplateKind::Tasks, TemplateKind::Settings];

#[test]
fn generate_all_creates_files() {
    let mut p = Project::empty();
    let summary = p.drive(generate(&ALL, Preset::PythonBasic));
    assert!(summary.errors.is_empty(), "unexpected errors: {:?}", summary.errors);
    assert_eq!(summary.created.len(), 3);
    assert_eq!(summary.skipped.len(), 0);
    assert_eq!(summary.created, ALL.to_vec());
    for k in ALL {
        assert_eq!(p.files[filename_for(k)], embedded_template(Preset::PythonBasic, k));
    }
    assert_eq!(p.files.len(), 3);
}

#[test]
fn generate_skips_existing_files() {
    let mut p = Project::empty();
    p.files.insert("tasks.json", "{\n  \"existing\": true\n}\n".to_string());
    let summary = p.drive(generate(&ALL, Preset::PythonBasic));
    assert!(summary.errors.is_empty());
    assert_eq!(summary.created.len(), 2, "expected 2 created files");
    assert_eq!(summary.skipped.len(), 1, "expected 1 skipped file");
    assert_eq!(summary.skipped, vec![TemplateKind::Tasks]);
    assert!(p.files["tasks.json"].contains("\"existing\": true"));
    assert_eq!(p.files["tasks.json"], "{\n  \"existing\": true\n}\n");
}

#[test]
fn generate_uses_external_template_dir() {
    let mut p = Project::empty();
    let custom = "{\n  \"version\": \"2.0.0\",\n  \"tasks\": [{ \"label\": \"custom\" }]\n}\n";
    p.overrides.insert("tasks.json", custom.to_string());
    let summary = p.drive(generate(&[TemplateKind::Tasks], Preset::PythonBasic));
    assert!(summary.errors.is_empty());
    assert_eq!(summary.created.len(), 1);
    assert!(p.files["tasks.json"].contains("\"custom\""), "external template should be used");
    assert_eq!(p.files["tasks.json"], custom);
}

#[test]
fn override_missing_falls_back_to_default() {
    let mut p = Project::empty();
    p.overrides.insert("tasks.json", "custom tasks".to_string());
    let summary = p.drive(generate(&[TemplateKind::Launch, TemplateKind::Tasks], Preset::PythonBasic));
    assert_eq!(summary.created, vec![TemplateKind::Launch, TemplateKind::Tasks]);
    assert_eq!(p.files["launch.json"], embedded_template(Preset::PythonBasic, TemplateKind::Launch));
    assert_eq!(p.files["tasks.json"], "custom tasks");
}

#[test]
fn second_run_skips_everything() {
    let mut p = Project::empty();
    let first = p.drive(generate(&ALL, Preset::PythonBasic));
    assert_eq!(first.created, ALL.to_vec());
    let before = p.files.clone();
    let second = p.drive(generate(&ALL, Preset::PythonBasic));
    assert!(second.created.is_empty());
    assert_eq!(second.skipped, ALL.to_vec());
    assert!(second.errors.is_empty());
    assert_eq!(p.files, before);
    assert_eq!(p.writes, 3);
}

#[test]
fn selected_subset_writes_only_subset() {
    let mut p = Project::empty();
    let summary = p.drive(generate(&[TemplateKind::Launch, TemplateKind::Settings], Preset::PythonBasic));
    assert_eq!(summary.created, vec![TemplateKind::Launch, TemplateKind::Settings]);
    assert!(p.files.contains_key("launch.json"));
    assert!(!p.files.contains_key("tasks.json"));
    assert!(p.files.contains_key("settings.json"));
}

#[test]
fn empty_selection_creates_nothing() {
    let mut p = Project::empty();
    let summary = p.drive(generate(&[], Preset::PythonBasic));
    assert!(summary.created.is_empty());
    assert!(summary.skipped.is_empty());
    assert!(summary.errors.is_empty());
    assert!(p.files.is_empty());
}

#[test]
fn config_dir_failure_stops_the_run() {
    let mut p = Project::empty();
    p.dir_error = Some("failed to create .vscode: denied".to_string());
    let summary = p.drive(generate(&ALL, Preset::PythonBasic));
    assert!(summary.created.is_empty());
    assert!(summary.skipped.is_empty());
    assert_eq!(summary.errors.len(), 1);
    assert_eq!(summary.errors[0].0, Target::ConfigDir);
    assert_eq!(summary.errors[0].1, "failed to create .vscode: denied");
    assert_eq!(p.writes, 0);
}

#[test]
fn write_failure_is_recorded_and_the_run_goes_on() {
    let mut p = Project::empty();
    p.write_error = Some((TemplateKind::Tasks, "disk full".to_string()));
    let summary = p.drive(generate(&ALL, Preset::PythonBasic));
    assert_eq!(summary.created, vec![TemplateKind::Launch, TemplateKind::Settings]);
    assert_eq!(summary.errors.len(), 1);
    assert_eq!(summary.errors[0].0, Target::File(TemplateKind::Tasks));
    assert_eq!(summary.errors[0].1, "disk full");
}

#[test]
fn prompt_confirmed_overwrites() {
    let mut p = Project::empty();
    p.files.insert("tasks.json", "old".to_string());
    p.answer = true;
    let summary = p.drive(generate_with_prompt(&ALL, Preset::PythonBasic));
    assert_eq!(summary.created, ALL.to_vec());
    assert!(summary.skipped.is_empty());
    assert_eq!(p.questions, 1);
    assert_eq!(p.files["tasks.json"], embedded_template(Preset::PythonBasic, TemplateKind::Tasks));
}

#[test]
fn prompt_declined_keeps_file() {
    let mut p = Project::empty();
    p.files.insert("tasks.json", "old".to_string());
    p.answer = false;
    let summary = p.drive(generate_with_prompt(&ALL, Preset::PythonBasic));
    assert_eq!(summary.created, vec![TemplateKind::Launch, TemplateKind::Settings]);
    assert_eq!(summary.skipped, vec![TemplateKind::Tasks]);
    assert_eq!(p.questions, 1);
    assert_eq!(p.files["tasks.json"], "old");
}

#[test]
fn skip_policy_never_asks() {
    let mut p = Project::empty();
    p.files.insert("launch.json", "old".to_string());
    p.answer = true;
    let g = generate(&ALL, Preset::PythonBasic);
    assert_eq!(g.policy(), OverwritePolicy::Skip);
    let summary = p.drive(g);
    assert_eq!(p.questions, 0);
    assert_eq!(summary.skipped, vec![TemplateKind::Launch]);
    assert_eq!(p.files["launch.json"], "old");
}

#[test]
fn duplicate_kinds_are_processed_independently() {
    let mut p = Project::empty();
    let summary = p.drive(generate(&[TemplateKind::Tasks, TemplateKind::Tasks], Preset::PythonBasic));
    assert_eq!(summary.created, vec![TemplateKind::Tasks]);
    assert_eq!(summary.skipped, vec![TemplateKind::Tasks]);
}

#[test]
fn unexpected_event_is_ignored() {
    let mut g = generate(&ALL, Preset::PythonBasic);
    assert_eq!(g.next_action(), Action::CreateConfigDir);
    g.step(Event::Written);
    assert_eq!(g.next_action(), Action::CreateConfigDir);
    g.step(Event::ConfigDirCreated);
    assert_eq!(g.next_action(), Action::Probe(TemplateKind::Launch));
    g.step(Event::Confirmed(true));
    assert_eq!(g.next_action(), Action::Probe(TemplateKind::Launch));
    g.step(Event::Probed(false));
    assert_eq!(g.next_action(), Action::Write(TemplateKind::Launch));
    g.step(Event::Written);
    assert_eq!(g.next_action(), Action::Probe(TemplateKind::Tasks));
    assert!(!g.is_finished());
}

#[test]
fn cli_generate_all_creates_files() {
    let mut p = Project::empty();
    let selected = selection_or_default(vec![]);
    let summary = p.drive(generate(&selected, Preset::PythonBasic));
    assert!(summary.errors.is_empty());
    assert!(p.files.contains_key("launch.json"));
    assert!(p.files.contains_key("tasks.json"));
    assert!(p.files.contains_key("settings.json"));
}

#[test]
fn cli_generate_selected_subset() {
    let mut p = Project::empty();
    let selected = selection_or_default(vec![TemplateKind::Launch, TemplateKind::Settings]);
    let summary = p.drive(generate(&selected, Preset::PythonBasic));
    assert!(summary.errors.is_empty());
    assert!(p.files.contains_key("launch.json"));
    assert!(!p.files.contains_key("tasks.json"));
    assert!(p.files.contains_key("settings.json"));
}

#[test]
fn cli_uses_external_template_dir_override() {
    let mut p = Project::empty();
    p.overrides.insert(
        "tasks.json",
        "{\n  \"version\": \"2.0\", \n  \"tasks\": [{\"label\": \"custom\"}]\n}\n".to_string(),
    );
    let selected = selection_or_default(vec![TemplateKind::Tasks]);
    let summary = p.drive(generate(&selected, Preset::PythonBasic));
    assert!(summary.errors.is_empty());
    assert!(p.files["tasks.json"].contains("\"custom\""));
}
