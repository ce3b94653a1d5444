use vstd::prelude::*;

verus! {

/// The configuration files this library knows how to produce.
#[derive(Clone, Copy, Debug, PartialEq, Eq, Structural)]
pub enum TemplateKind {
    Launch,
    Tasks,
    Settings,
}

/// A named bundle of default content for every kind.
#[derive(Clone, Copy, Debug, PartialEq, Eq, Structural)]
pub enum Preset {
    PythonBasic,
}

/// Name of the subdirectory of an override directory that holds a preset's files.
pub open spec fn preset_dir_spec(preset: Preset) -> Seq<char> {
    match preset {
        Preset::PythonBasic => "python"@,
    }
}

/// Name of the file that a kind is written to inside the configuration directory.
pub open spec fn filename_spec(kind: TemplateKind) -> Seq<char> {
    match kind {
        TemplateKind::Launch => "launch.json"@,
        TemplateKind::Tasks => "tasks.json"@,
        TemplateKind::Settings => "settings.json"@,
    }
}

impl Preset {
    pub fn dir_name(&self) -> (r: &'static str)
        ensures
            r@ == preset_dir_spec(*self),
    {
        match self {
            Preset::PythonBasic => "python",
        }
    }
}

pub fn filename_for(kind: TemplateKind) -> (r: &'static str)
    ensures
        r@ == filename_spec(kind),
{
    match kind {
        TemplateKind::Launch => "launch.json",
        TemplateKind::Tasks => "tasks.json",
        TemplateKind::Settings => "settings.json",
    }
}

/// Default `launch.json` of the Python preset.
pub const PYTHON_BASIC_LAUNCH: &'static str = "{\n  \"version\": \"0.2.0\",\n  \"configurations\": [\n    {\n      \"name\": \"Python: Current File\",\n      \"type\": \"debugpy\",\n      \"request\": \"launch\",\n      \"program\": \"${file}\",\n      \"console\": \"integratedTerminal\",\n      \"justMyCode\": true\n    }\n  ]\n}\n";

/// Default `tasks.json` of the Python preset.
pub const PYTHON_BASIC_TASKS: &'static str = "{\n  \"version\": \"2.0.0\",\n  \"tasks\": [\n    {\n      \"label\": \"pytest\",\n      \"type\": \"shell\",\n      \"command\": \"python -m pytest\",\n      \"group\": \"test\",\n      \"problemMatcher\": []\n    }\n  ]\n}\n";

/// Default `settings.json` of the Python preset.
pub const PYTHON_BASIC_SETTINGS: &'static str = "{\n  \"python.testing.pytestEnabled\": true,\n  \"python.testing.unittestEnabled\": false,\n  \"editor.formatOnSave\": true\n}\n";

/// The built-in content of a preset for a kind.
pub open spec fn embedded_spec(preset: Preset, kind: TemplateKind) -> Seq<char> {
    match (preset, kind) {
        (Preset::PythonBasic, TemplateKind::Launch) => PYTHON_BASIC_LAUNCH@,
        (Preset::PythonBasic, TemplateKind::Tasks) => PYTHON_BASIC_TASKS@,
        (Preset::PythonBasic, TemplateKind::Settings) => PYTHON_BASIC_SETTINGS@,
    }
}

/// The content a kind is generated with: the text read from the override
/// directory, verbatim, when there was one to read, else the built-in default.
pub open spec fn resolved_spec(
    preset: Preset,
    kind: TemplateKind,
    override_text: Option<Seq<char>>,
) -> Seq<char> {
    match override_text {
        Some(text) => text,
        None => embedded_spec(preset, kind),
    }
}

pub fn embedded_template(preset: Preset, kind: TemplateKind) -> (r: &'static str)
    ensures
        r@ == embedded_spec(preset, kind),
{
    match (preset, kind) {
        (Preset::PythonBasic, TemplateKind::Launch) => PYTHON_BASIC_LAUNCH,
        (Preset::PythonBasic, TemplateKind::Tasks) => PYTHON_BASIC_TASKS,
        (Preset::PythonBasic, TemplateKind::Settings) => PYTHON_BASIC_SETTINGS,
    }
}

/// Where an override for `(preset, kind)` is looked up, relative to the
/// override directory: the preset's subdirectory, then the kind's file name.
pub fn override_location(preset: Preset, kind: TemplateKind) -> (r: (&'static str, &'static str))
    ensures
        r.0@ == preset_dir_spec(preset),
        r.1@ == filename_spec(kind),
{
    (preset.dir_name(), filename_for(kind))
}

/// Picks the content for `(preset, kind)`. `override_text` is what could be read
/// from the override location, or `None` when there is no override directory or
/// the read failed; a failed read is never an error.
pub fn load_template(preset: Preset, kind: TemplateKind, override_text: Option<String>) -> (r: String)
    ensures
        r@ == resolved_spec(preset, kind, override_text.deep_view()),
{
    match override_text {
        Some(text) => text,
        None => embedded_template(preset, kind).to_owned(),
    }
}

} // verus!
