//! `init`: settle the node's configuration from the command line, or step by
//! step from the user's answers.

use vstd::prelude::*;
use crate::config::{Config, ConfigView, NodeView, opt_view, strings_view};
use crate::commands::{CommandError, labelled};
use crate::display::{path_debug_text, path_debug};
use crate::text::{decimal, decimal_string};

verus! {

/// Options of the `init` command.
#[derive(Clone, Debug)]
pub struct InitCommand {
    /// Node name (optional).
    pub name: Option<String>,
    /// Data directory path.
    pub data_dir: Option<String>,
    /// Listen port for the node.
    pub port: Option<u16>,
    /// Maximum storage allocation in GB.
    pub storage: Option<u64>,
    /// Skip interactive configuration.
    pub no_interactive: bool,
}

/// The configuration `c` with each setting given on the command line put in
/// place, and every other setting left as it was.
pub open spec fn with_args(cmd: InitCommand, c: ConfigView) -> ConfigView {
    ConfigView {
        node: NodeView {
            id: c.node.id,
            name: if cmd.name is Some { opt_view(cmd.name) } else { c.node.name },
            data_dir: match cmd.data_dir {
                Some(d) => d@,
                None => c.node.data_dir,
            },
            listen_port: match cmd.port {
                Some(p) => p,
                None => c.node.listen_port,
            },
        },
        network: c.network,
        storage: (
            match cmd.storage {
                Some(s) => s,
                None => c.storage.0,
            },
            c.storage.1,
            c.storage.2,
        ),
        coordinator: c.coordinator,
    }
}

/// Whether `init` asks its questions: only when it was not told to skip
/// them and no setting was given on the command line.  Given settings make
/// the command non-interactive, as in `init --name my-node --port 8080
/// --storage 50`.
pub open spec fn interactive(cmd: InitCommand) -> bool {
    !cmd.no_interactive && cmd.name is None && cmd.data_dir is None && cmd.port is None
        && cmd.storage is None
}

/// A step of the interactive setup.
#[derive(PartialEq, Eq, Structural, Clone, Copy, Debug)]
pub enum WizardStage {
    Name,
    DataDir,
    Port,
    Storage,
    Confirm,
}

/// A question to put to the user, with the answer offered by default.
#[allow(inconsistent_fields)]
pub enum Prompt {
    /// "Node name (optional)"; an empty answer leaves the node unnamed.
    Name { offered: String },
    /// "Data directory".
    DataDir { offered: String },
    /// "Listen port".
    Port { offered: u16 },
    /// "Maximum storage allocation (GB)".
    Storage { offered: u64 },
    /// "Proceed with initialization?", after the summary of the settings.
    Confirm,
}

/// The user's answer to a prompt.
pub enum Answer {
    Text(String),
    Port(u16),
    Storage(u64),
    Confirm(bool),
}

/// What the setup does next.
pub enum WizardStep {
    /// Ask the user and hand the answer back for the same stage.
    Ask(Prompt),
    /// Go on with the given stage.
    Next(WizardStage),
    /// All settings are in place and confirmed.
    Finished,
    /// The user declined to proceed.
    Cancelled,
}

/// The stage that follows `s` (the confirmation is the last one).
pub open spec fn next_stage(s: WizardStage) -> WizardStage {
    match s {
        WizardStage::Name => WizardStage::DataDir,
        WizardStage::DataDir => WizardStage::Port,
        WizardStage::Port => WizardStage::Storage,
        WizardStage::Storage => WizardStage::Confirm,
        WizardStage::Confirm => WizardStage::Confirm,
    }
}

/// The name offered by default: the configured one, else `zephyr-node`.
pub open spec fn default_name(c: ConfigView) -> Seq<char> {
    match c.node.name {
        Some(n) => n,
        None => "zephyr-node"@,
    }
}

/// The name an answer gives: none for an empty answer.
pub open spec fn answered_name(t: Seq<char>) -> Option<Seq<char>> {
    if t.len() == 0 { None } else { Some(t) }
}

/// Whether `a` answers the question of stage `s`.
pub open spec fn answers(s: WizardStage, a: Answer) -> bool {
    match s {
        WizardStage::Name => a is Text,
        WizardStage::DataDir => a is Text,
        WizardStage::Port => a is Port,
        WizardStage::Storage => a is Storage,
        WizardStage::Confirm => a is Confirm,
    }
}

/// The configuration after the user's answer `a` to the question of stage `s`.
pub open spec fn with_answer(s: WizardStage, a: Answer, c: ConfigView) -> ConfigView {
    match a {
        Answer::Text(t) => if s == WizardStage::Name {
            ConfigView { node: NodeView { name: answered_name(t@), ..c.node }, ..c }
        } else {
            ConfigView { node: NodeView { data_dir: t@, ..c.node }, ..c }
        },
        Answer::Port(p) => ConfigView { node: NodeView { listen_port: p, ..c.node }, ..c },
        Answer::Storage(g) => ConfigView { storage: (g, c.storage.1, c.storage.2), ..c },
        Answer::Confirm(_) => c,
    }
}

/// Whether the setting of stage `s` was given on the command line.
pub open spec fn given(cmd: InitCommand, s: WizardStage) -> bool {
    match s {
        WizardStage::Name => cmd.name is Some,
        WizardStage::DataDir => cmd.data_dir is Some,
        WizardStage::Port => cmd.port is Some,
        WizardStage::Storage => cmd.storage is Some,
        WizardStage::Confirm => false,
    }
}

/// The configuration with the command-line setting of stage `s` in place.
pub open spec fn with_given(cmd: InitCommand, s: WizardStage, c: ConfigView) -> ConfigView {
    match s {
        WizardStage::Name => ConfigView { node: NodeView { name: opt_view(cmd.name), ..c.node }, ..c },
        WizardStage::DataDir => ConfigView {
            node: NodeView { data_dir: cmd.data_dir->Some_0@, ..c.node },
            ..c
        },
        WizardStage::Port => ConfigView {
            node: NodeView { listen_port: cmd.port->Some_0, ..c.node },
            ..c
        },
        WizardStage::Storage => ConfigView { storage: (cmd.storage->Some_0, c.storage.1, c.storage.2), ..c },
        WizardStage::Confirm => c,
    }
}

/// The question of stage `s`, with its default taken from `c`.
pub open spec fn prompt_matches(s: WizardStage, p: Prompt, c: ConfigView) -> bool {
    match s {
        WizardStage::Name => p matches Prompt::Name { offered } && offered@ == default_name(c),
        WizardStage::DataDir => p matches Prompt::DataDir { offered } && offered@ == c.node.data_dir,
        WizardStage::Port => p matches Prompt::Port { offered } && offered == c.node.listen_port,
        WizardStage::Storage => p matches Prompt::Storage { offered } && offered == c.storage.0,
        WizardStage::Confirm => p is Confirm,
    }
}

/// The step asks the question of stage `s`, with its default taken from `c`.
pub open spec fn asks(s: WizardStage, r: WizardStep, c: ConfigView) -> bool {
    r matches WizardStep::Ask(p) && prompt_matches(s, p, c)
}

/// The step ends the setup as the confirmation answer `a` decides.
pub open spec fn confirms(a: Answer, r: WizardStep) -> bool {
    a matches Answer::Confirm(yes) && (if yes { r is Finished } else { r is Cancelled })
}

impl InitCommand {
    /// Puts each setting given on the command line into `config`.
    pub fn apply_args(&self, config: &mut Config) -> (r: Result<(), CommandError>)
        ensures
            r is Ok,
            final(config)@ == with_args(*self, old(config)@),
    {
        match &self.name {
            Some(name) => {
                config.node.name = Some(name.clone());
            },
            None => {},
        }
        match &self.data_dir {
            Some(dir) => {
                config.node.data_dir = dir.clone();
            },
            None => {},
        }
        match self.port {
            Some(port) => {
                config.node.listen_port = port;
            },
            None => {},
        }
        match self.storage {
            Some(storage) => {
                config.storage.max_storage_gb = storage;
            },
            None => {},
        }
        Ok(())
    }

    /// How the setup begins.  Non-interactively (settings given, or
    /// questions skipped) the given settings are put in place, every other
    /// setting keeps its configured value, and the setup is finished with no
    /// question and no confirmation.  Interactively nothing is changed yet
    /// and the questions start with the node name.
    pub fn start(&self, config: &mut Config) -> (r: WizardStep)
        ensures
            interactive(*self) ==> final(config)@ == old(config)@ && r == WizardStep::Next(
                WizardStage::Name,
            ),
            !interactive(*self) ==> final(config)@ == with_args(*self, old(config)@) && r
                is Finished,
    {
        if !self.no_interactive && self.name.is_none() && self.data_dir.is_none()
            && self.port.is_none() && self.storage.is_none() {
            WizardStep::Next(WizardStage::Name)
        } else {
            let _ = self.apply_args(config);
            WizardStep::Finished
        }
    }

    /// One step of the interactive setup at stage `stage`, given the user's
    /// answer to that stage's question if one was asked.  A setting given on
    /// the command line is taken without asking; otherwise the question is
    /// asked with the current setting as its default, and the answer is put
    /// in place.  The confirmation ends the setup, one way or the other.
    pub fn wizard_step(&self, config: &mut Config, stage: WizardStage, answer: Option<Answer>) -> (r:
        WizardStep)
        ensures
            match answer {
                Some(a) => if answers(stage, a) {
                    if stage == WizardStage::Confirm {
                        final(config)@ == old(config)@ && confirms(a, r)
                    } else {
                        final(config)@ == with_answer(stage, a, old(config)@) && r == WizardStep::Next(next_stage(stage))
                    }
                } else {
                    final(config)@ == old(config)@ && asks(stage, r, old(config)@)
                },
                None => if given(*self, stage) {
                    final(config)@ == with_given(*self, stage, old(config)@) && r == WizardStep::Next(next_stage(stage))
                } else {
                    final(config)@ == old(config)@ && asks(stage, r, old(config)@)
                },
            },
    {
        match answer {
            Some(Answer::Text(t)) => {
                if stage == WizardStage::Name {
                    config.node.name = if t.as_str().unicode_len() == 0 { None } else { Some(t) };
                    return WizardStep::Next(WizardStage::DataDir);
                } else if stage == WizardStage::DataDir {
                    config.node.data_dir = t;
                    return WizardStep::Next(WizardStage::Port);
                }
            },
            Some(Answer::Port(p)) => {
                if stage == WizardStage::Port {
                    config.node.listen_port = p;
                    return WizardStep::Next(WizardStage::Storage);
                }
            },
            Some(Answer::Storage(g)) => {
                if stage == WizardStage::Storage {
                    config.storage.max_storage_gb = g;
                    return WizardStep::Next(WizardStage::Confirm);
                }
            },
            Some(Answer::Confirm(yes)) => {
                if stage == WizardStage::Confirm {
                    return if yes { WizardStep::Finished } else { WizardStep::Cancelled };
                }
            },
            None => {
                match stage {
                    WizardStage::Name => match &self.name {
                        Some(n) => {
                            config.node.name = Some(n.clone());
                            return WizardStep::Next(WizardStage::DataDir);
                        },
                        None => {},
                    },
                    WizardStage::DataDir => match &self.data_dir {
                        Some(d) => {
                            config.node.data_dir = d.clone();
                            return WizardStep::Next(WizardStage::Port);
                        },
                        None => {},
                    },
                    WizardStage::Port => match self.port {
                        Some(p) => {
                            config.node.listen_port = p;
                            return WizardStep::Next(WizardStage::Storage);
                        },
                        None => {},
                    },
                    WizardStage::Storage => match self.storage {
                        Some(g) => {
                            config.storage.max_storage_gb = g;
                            return WizardStep::Next(WizardStage::Confirm);
                        },
                        None => {},
                    },
                    WizardStage::Confirm => {},
                }
            },
        }
        let prompt = match stage {
            WizardStage::Name => Prompt::Name {
                offered: match &config.node.name {
                    Some(n) => n.clone(),
                    None => String::from_str("zephyr-node"),
                },
            },
            WizardStage::DataDir => Prompt::DataDir { offered: config.node.data_dir.clone() },
            WizardStage::Port => Prompt::Port { offered: config.node.listen_port },
            WizardStage::Storage => Prompt::Storage { offered: config.storage.max_storage_gb },
            WizardStage::Confirm => Prompt::Confirm,
        };
        WizardStep::Ask(prompt)
    }
}

/// What `Option::unwrap_or("auto-generated")` shows for an optional text.
pub open spec fn or_auto(o: Option<Seq<char>>) -> Seq<char> {
    match o {
        Some(t) => t,
        None => "auto-generated"@,
    }
}

/// The summary shown before the user confirms the settings.
pub open spec fn summary_view(c: ConfigView) -> Seq<Seq<char>> {
    seq![
        "\nConfiguration summary:"@,
        "  Name: "@ + or_auto(c.node.name),
        "  Data directory: "@ + path_debug(c.node.data_dir),
        "  Listen port: "@ + decimal(c.node.listen_port as nat),
        "  Max storage: "@ + decimal(c.storage.0 as nat) + " GB"@,
    ]
}

/// The report shown once the node is initialized.
pub open spec fn completion_view(c: ConfigView) -> Seq<Seq<char>> {
    seq![
        "✓ ZephyrFS node initialized successfully!"@,
        "  Node ID: "@ + or_auto(c.node.id),
        "  Data directory: "@ + path_debug(c.node.data_dir),
        "  Listen port: "@ + decimal(c.node.listen_port as nat),
        "  Max storage: "@ + decimal(c.storage.0 as nat) + " GB"@,
        "\nNext steps:"@,
        "  1. Start the node: zephyrfs status"@,
        "  2. Join a network: zephyrfs join <bootstrap-peer>"@,
    ]
}

fn or_auto_string(o: &Option<String>) -> (r: String)
    ensures
        r@ == or_auto(opt_view(*o)),
{
    match o {
        Some(t) => t.clone(),
        None => String::from_str("auto-generated"),
    }
}

fn settings_lines(config: &Config, out: &mut Vec<String>)
    ensures
        strings_view(final(out)@) == strings_view(old(out)@) + seq![
            "  Data directory: "@ + path_debug(config@.node.data_dir),
            "  Listen port: "@ + decimal(config@.node.listen_port as nat),
            "  Max storage: "@ + decimal(config@.storage.0 as nat) + " GB"@,
        ],
{
    let ghost start = strings_view(out@);
    let dir = path_debug_text(config.node.data_dir.as_str());
    out.push(labelled("  Data directory: ", dir.as_str()));
    let port = decimal_string(config.node.listen_port as u64);
    out.push(labelled("  Listen port: ", port.as_str()));
    let gb = decimal_string(config.storage.max_storage_gb);
    let mut max = labelled("  Max storage: ", gb.as_str());
    max.append(" GB");
    out.push(max);
    assert(strings_view(out@) =~= start + seq![
        "  Data directory: "@ + path_debug(config@.node.data_dir),
        "  Listen port: "@ + decimal(config@.node.listen_port as nat),
        "  Max storage: "@ + decimal(config@.storage.0 as nat) + " GB"@,
    ]);
}

impl InitCommand {
    /// The summary of the settings shown before the user confirms them.
    pub fn summary_lines(config: &Config) -> (r: Vec<String>)
        ensures
            strings_view(r@) == summary_view(config@),
    {
        let mut r: Vec<String> = Vec::new();
        r.push(String::from_str("\nConfiguration summary:"));
        let name = or_auto_string(&config.node.name);
        r.push(labelled("  Name: ", name.as_str()));
        let ghost head = strings_view(r@);
        assert(head =~= seq!["\nConfiguration summary:"@, "  Name: "@ + or_auto(config@.node.name)]);
        settings_lines(config, &mut r);
        assert(strings_view(r@) =~= summary_view(config@));
        r
    }

    /// The report shown once the node is initialized.
    pub fn completion_lines(config: &Config) -> (r: Vec<String>)
        ensures
            strings_view(r@) == completion_view(config@),
    {
        let mut r: Vec<String> = Vec::new();
        r.push(String::from_str("✓ ZephyrFS node initialized successfully!"));
        let id = or_auto_string(&config.node.id);
        r.push(labelled("  Node ID: ", id.as_str()));
        let ghost head = strings_view(r@);
        assert(head =~= seq!["✓ ZephyrFS node initialized successfully!"@, "  Node ID: "@ + or_auto(config@.node.id)]);
        settings_lines(config, &mut r);
        let ghost mid = strings_view(r@);
        r.push(String::from_str("\nNext steps:"));
        r.push(String::from_str("  1. Start the node: zephyrfs status"));
        r.push(String::from_str("  2. Join a network: zephyrfs join <bootstrap-peer>"));
        assert(strings_view(r@) =~= mid + seq![
            "\nNext steps:"@,
            "  1. Start the node: zephyrfs status"@,
            "  2. Join a network: zephyrfs join <bootstrap-peer>"@,
        ]);
        assert(strings_view(r@) =~= completion_view(config@));
        r
    }
}

/// Applying the command-line settings a second time changes nothing more.
pub proof fn lemma_apply_args_idempotent(cmd: InitCommand, c: ConfigView)
    ensures
        with_args(cmd, with_args(cmd, c)) == with_args(cmd, c),
{
}

/// Settings not given on the command line keep their configured values, and
/// with no setting given the configuration stays as it was.
pub proof fn lemma_apply_args_keeps_rest(cmd: InitCommand, c: ConfigView)
    ensures
        with_args(cmd, c).node.id == c.node.id,
        with_args(cmd, c).network == c.network,
        with_args(cmd, c).coordinator == c.coordinator,
        with_args(cmd, c).storage.1 == c.storage.1,
        with_args(cmd, c).storage.2 == c.storage.2,
        cmd.name is None && cmd.data_dir is None && cmd.port is None && cmd.storage is None
            ==> with_args(cmd, c) == c,
{
}

/// Taking every setting from the command line in the interactive setup
/// leaves the configuration just as the non-interactive path does.
pub proof fn lemma_wizard_agrees_with_args(cmd: InitCommand, c: ConfigView)
    requires
        cmd.name is Some,
        cmd.data_dir is Some,
        cmd.port is Some,
        cmd.storage is Some,
    ensures
        with_given(cmd, WizardStage::Storage, with_given(cmd, WizardStage::Port, with_given(cmd, WizardStage::DataDir, with_given(cmd, WizardStage::Name, c))))
            == with_args(cmd, c),
{
}

/// Each answer of the interactive setup is taken: the storage answer becomes
/// the maximum storage, the port answer the listen port, the data-directory
/// answer the data directory, and the name answer the node's name (none for
/// an empty answer); every other setting is left as it was, and each answer
/// counts as answering its own question.
pub proof fn lemma_answers_take_effect(c: ConfigView, text: String, port: u16, gb: u64)
    ensures
        answers(WizardStage::Storage, Answer::Storage(gb)),
        with_answer(WizardStage::Storage, Answer::Storage(gb), c).storage == (gb, c.storage.1, c.storage.2),
        with_answer(WizardStage::Storage, Answer::Storage(gb), c).node == c.node,
        answers(WizardStage::Port, Answer::Port(port)),
        with_answer(WizardStage::Port, Answer::Port(port), c).node.listen_port == port,
        with_answer(WizardStage::Port, Answer::Port(port), c).storage == c.storage,
        answers(WizardStage::DataDir, Answer::Text(text)),
        with_answer(WizardStage::DataDir, Answer::Text(text), c).node.data_dir == text@,
        with_answer(WizardStage::DataDir, Answer::Text(text), c).node.name == c.node.name,
        answers(WizardStage::Name, Answer::Text(text)),
        with_answer(WizardStage::Name, Answer::Text(text), c).node.name == if text@.len() == 0 {
            None
        } else {
            Some(text@)
        },
        with_answer(WizardStage::Name, Answer::Text(text), c).node.data_dir == c.node.data_dir,
        forall|yes: bool| #[trigger] with_answer(WizardStage::Confirm, Answer::Confirm(yes), c) == c,
        forall|s: WizardStage, a: Answer|
            (#[trigger] with_answer(s, a, c)).network == c.network && with_answer(s, a, c).coordinator
                == c.coordinator && with_answer(s, a, c).node.id == c.node.id,
{
}

} // verus!
