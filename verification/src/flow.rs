//! The dialogue of the configuration wizard, question by question.
//!
//! A [`ConfigureFlow`] is a dialogue that waits for an answer. Whoever owns the
//! terminal puts the question, hands the answer back, and gets the next step: another
//! question, a config to write, or the end of the dialogue.

use vstd::prelude::*;
use vstd::string::*;

use crate::config::{ConfigView, PersistedConfig};
use crate::json::json_new;
use crate::text::{followed_by, unless_blank};
use crate::wizard::{
    build_configured_persisted_config, configure_collapse_warning, existing_api_key,
    existing_chat_kwargs_text, existing_default_model, existing_request_log_path, existing_url,
    read_chat_kwargs, ConfigureFlowInputs, InputsView,
};

verus! {

/// The question that a dialogue waits on.
#[derive(Debug, Clone, Copy, PartialEq, Eq, Structural)]
pub enum Stage {
    ConfirmCollapse,
    BindAddress,
    UpstreamUrl,
    KeepApiKey,
    ApiKey,
    UpstreamModel,
    RequestLogPath,
    ChatKwargs,
    BraveUrl,
    BraveApiKey,
    BraveMaxResults,
    RequestTimeout,
    ConfirmWrite,
}

/// A dialogue that waits for an answer.
#[derive(Debug)]
pub struct ConfigureFlow {
    /// The config that is being replaced.
    pub existing: PersistedConfig,
    /// The path of the config file, for display.
    pub path: String,
    pub stage: Stage,
    /// The answers so far.
    pub inputs: ConfigureFlowInputs,
    /// The chat kwargs as they were entered.
    pub chat_kwargs_text: String,
}

/// A question to put.
#[derive(Debug)]
pub enum Prompt {
    /// Yes or no.
    Confirm { message: String, default: bool },
    /// A line of text.
    Input { message: String, default: String, allow_empty: bool },
    /// A secret, which may be empty.
    Password { message: String },
    /// A number of things.
    Count { message: String, default: usize },
    /// A number of seconds.
    Seconds { message: String, default: u64 },
}

/// What came of a question.
#[derive(Debug)]
pub enum Answer {
    Confirmed(bool),
    Text(String),
    Count(usize),
    Seconds(u64),
    /// The question could not be put; the text says why.
    Failed(String),
}

/// What is to be done next.
#[derive(Debug)]
pub enum FlowStep {
    /// Show the notices, put the question, and hand the answer to the dialogue.
    Ask { flow: ConfigureFlow, notices: Vec<String>, prompt: Prompt },
    /// Write the config.
    Write(PersistedConfig),
    /// The dialogue has failed; nothing is to be written.
    Fail(String),
}

/// A dialogue, mathematically.
#[verifier::ext_equal]
pub struct FlowView {
    pub existing: ConfigView,
    pub path: Seq<char>,
    pub stage: Stage,
    pub inputs: InputsView,
    pub chat_kwargs_text: Seq<char>,
}

/// A question, mathematically.
pub enum PromptView {
    Confirm { message: Seq<char>, default: bool },
    Input { message: Seq<char>, default: Seq<char>, allow_empty: bool },
    Password { message: Seq<char> },
    Count { message: Seq<char>, default: usize },
    Seconds { message: Seq<char>, default: u64 },
}

/// What came of a question, mathematically.
pub enum AnswerView {
    Confirmed(bool),
    Text(Seq<char>),
    Count(usize),
    Seconds(u64),
    Failed(Seq<char>),
}

/// What is to be done next, mathematically.
#[verifier::ext_equal]
pub enum StepView {
    Ask { flow: FlowView, notices: Seq<Seq<char>>, prompt: PromptView },
    Write(ConfigView),
    Fail(Seq<char>),
}

impl View for ConfigureFlow {
    type V = FlowView;

    open spec fn view(&self) -> FlowView {
        FlowView {
            existing: self.existing@,
            path: self.path@,
            stage: self.stage,
            inputs: self.inputs@,
            chat_kwargs_text: self.chat_kwargs_text@,
        }
    }
}

impl View for Prompt {
    type V = PromptView;

    open spec fn view(&self) -> PromptView {
        match *self {
            Prompt::Confirm { message, default } => PromptView::Confirm {
                message: message@,
                default,
            },
            Prompt::Input { message, default, allow_empty } => PromptView::Input {
                message: message@,
                default: default@,
                allow_empty,
            },
            Prompt::Password { message } => PromptView::Password { message: message@ },
            Prompt::Count { message, default } => PromptView::Count { message: message@, default },
            Prompt::Seconds { message, default } => PromptView::Seconds {
                message: message@,
                default,
            },
        }
    }
}

impl View for Answer {
    type V = AnswerView;

    open spec fn view(&self) -> AnswerView {
        match *self {
            Answer::Confirmed(yes) => AnswerView::Confirmed(yes),
            Answer::Text(text) => AnswerView::Text(text@),
            Answer::Count(n) => AnswerView::Count(n),
            Answer::Seconds(n) => AnswerView::Seconds(n),
            Answer::Failed(message) => AnswerView::Failed(message@),
        }
    }
}

impl View for FlowStep {
    type V = StepView;

    open spec fn view(&self) -> StepView {
        match *self {
            FlowStep::Ask { flow, notices, prompt } => StepView::Ask {
                flow: flow@,
                notices: crate::text::string_views(notices@),
                prompt: prompt@,
            },
            FlowStep::Write(config) => StepView::Write(config@),
            FlowStep::Fail(message) => StepView::Fail(message@),
        }
    }
}

/// The question that a dialogue waits on, or a message that says why it cannot be
/// put together.
pub open spec fn question(flow: FlowView) -> Result<PromptView, Seq<char>> {
    let existing = flow.existing;
    match flow.stage {
        Stage::ConfirmCollapse => Ok(
            PromptView::Confirm { message: "Continue anyway?"@, default: false },
        ),
        Stage::BindAddress => Ok(
            PromptView::Input {
                message: "Bind address"@,
                default: existing.bind_addr,
                allow_empty: false,
            },
        ),
        Stage::UpstreamUrl => Ok(
            PromptView::Input {
                message: "Upstream chat-completions base URL"@,
                default: crate::wizard::proposed_url(existing),
                allow_empty: false,
            },
        ),
        Stage::KeepApiKey => Ok(
            PromptView::Confirm { message: "Keep existing upstream API key?"@, default: true },
        ),
        Stage::ApiKey => Ok(
            PromptView::Password {
                message: "Upstream API key (leave blank for local/no auth)"@,
            },
        ),
        Stage::UpstreamModel => Ok(
            PromptView::Input {
                message: "Upstream model override (leave blank to pass through request model)"@,
                default: crate::wizard::proposed_model(existing),
                allow_empty: true,
            },
        ),
        Stage::RequestLogPath => Ok(
            PromptView::Input {
                message: "Upstream request JSONL log path (leave blank to disable)"@,
                default: crate::wizard::proposed_log_path(existing),
                allow_empty: true,
            },
        ),
        Stage::ChatKwargs => match crate::wizard::proposed_chat_kwargs_text(existing) {
            Ok(text) => Ok(
                PromptView::Input {
                    message: "Extra upstream chat kwargs as JSON object (leave blank for none)"@,
                    default: text,
                    allow_empty: true,
                },
            ),
            Err(message) => Err(message),
        },
        Stage::BraveUrl => Ok(
            PromptView::Input {
                message: "Brave Search base URL"@,
                default: existing.brave_base_url,
                allow_empty: false,
            },
        ),
        Stage::BraveApiKey => Ok(
            PromptView::Password {
                message: "Brave Search API key (leave blank to disable provider-side web_search)"@,
            },
        ),
        Stage::BraveMaxResults => Ok(
            PromptView::Count {
                message: "Brave max results"@,
                default: existing.brave_max_results,
            },
        ),
        Stage::RequestTimeout => Ok(
            PromptView::Seconds {
                message: "Request timeout (seconds)"@,
                default: existing.request_timeout_secs,
            },
        ),
        Stage::ConfirmWrite => Ok(
            PromptView::Confirm {
                message: "Write configuration to "@ + flow.path + "?"@,
                default: true,
            },
        ),
    }
}

/// What the message starts with if the question of a stage could not be put.
pub open spec fn failure_head(stage: Stage) -> Seq<char> {
    match stage {
        Stage::ConfirmCollapse => "failed to confirm config collapse: "@,
        Stage::BindAddress => "failed to read bind address: "@,
        Stage::UpstreamUrl => "failed to read upstream URL: "@,
        Stage::KeepApiKey => "failed to confirm upstream API key: "@,
        Stage::ApiKey => "failed to read upstream API key: "@,
        Stage::UpstreamModel => "failed to read upstream model override: "@,
        Stage::RequestLogPath => "failed to read upstream request log path: "@,
        Stage::ChatKwargs => "failed to read upstream chat kwargs: "@,
        Stage::BraveUrl => "failed to read Brave URL: "@,
        Stage::BraveApiKey => "failed to read Brave API key: "@,
        Stage::BraveMaxResults => "failed to read Brave max results: "@,
        Stage::RequestTimeout => "failed to read timeout: "@,
        Stage::ConfirmWrite => "failed to confirm config write: "@,
    }
}

/// The step that puts the question of a dialogue, after some notices.
pub open spec fn asked(flow: FlowView, notices: Seq<Seq<char>>) -> StepView {
    match question(flow) {
        Ok(prompt) => StepView::Ask { flow, notices, prompt },
        Err(message) => StepView::Fail(message),
    }
}

/// The step that moves a dialogue to `stage`.
pub open spec fn advanced(flow: FlowView, stage: Stage) -> StepView {
    asked(FlowView { stage, ..flow }, Seq::empty())
}

/// The answers before the first question.
pub open spec fn no_inputs() -> InputsView {
    InputsView {
        bind_addr: Seq::empty(),
        upstream_base_url: Seq::empty(),
        upstream_api_key: None,
        upstream_model: Seq::empty(),
        upstream_request_log_path: Seq::empty(),
        upstream_chat_kwargs: Seq::empty(),
        brave_base_url: Seq::empty(),
        brave_api_key: Seq::empty(),
        brave_max_results: 0,
        request_timeout_secs: 0,
    }
}

/// The lines shown before the first question.
pub open spec fn opening_notices(existing: ConfigView, path: Seq<char>) -> Seq<Seq<char>> {
    let banner = seq!["Configuring llmconduit"@, "Config file: "@ + path];
    match crate::wizard::collapse_warning(existing) {
        Some(warning) => banner.push(warning),
        None => banner,
    }
}

/// The first step: the warning, if one is due, must be confirmed before the prompts.
pub open spec fn opening(existing: ConfigView, path: Seq<char>) -> StepView {
    asked(
        FlowView {
            existing,
            path,
            stage: if crate::wizard::collapse_warning(existing) is Some {
                Stage::ConfirmCollapse
            } else {
                Stage::BindAddress
            },
            inputs: no_inputs(),
            chat_kwargs_text: Seq::empty(),
        },
        opening_notices(existing, path),
    )
}

/// Whether an answer is of the kind that a stage asks for.
pub open spec fn accepts(stage: Stage, answer: AnswerView) -> bool {
    match answer {
        AnswerView::Confirmed(_) => stage is ConfirmCollapse || stage is KeepApiKey || stage
            is ConfirmWrite,
        AnswerView::Text(_) => !(stage is ConfirmCollapse || stage is KeepApiKey || stage
            is ConfirmWrite || stage is BraveMaxResults || stage is RequestTimeout),
        AnswerView::Count(_) => stage is BraveMaxResults,
        AnswerView::Seconds(_) => stage is RequestTimeout,
        AnswerView::Failed(_) => true,
    }
}

/// The step after a yes or no.
pub open spec fn after_confirmation(flow: FlowView, yes: bool) -> StepView {
    match flow.stage {
        Stage::KeepApiKey => if yes {
            advanced(
                FlowView {
                    inputs: InputsView {
                        upstream_api_key: crate::wizard::proposed_api_key(flow.existing),
                        ..flow.inputs
                    },
                    ..flow
                },
                Stage::UpstreamModel,
            )
        } else {
            advanced(flow, Stage::ApiKey)
        },
        Stage::ConfirmCollapse => if yes {
            advanced(flow, Stage::BindAddress)
        } else {
            StepView::Fail("configuration cancelled"@)
        },
        _ => if yes {
            StepView::Write(crate::wizard::configured(flow.existing, flow.inputs))
        } else {
            StepView::Fail("configuration cancelled"@)
        },
    }
}

/// The step after a text.
pub open spec fn after_text(flow: FlowView, text: Seq<char>) -> StepView {
    let inputs = flow.inputs;
    match flow.stage {
        Stage::BindAddress => advanced(
            FlowView { inputs: InputsView { bind_addr: text, ..inputs }, ..flow },
            Stage::UpstreamUrl,
        ),
        Stage::UpstreamUrl => advanced(
            FlowView { inputs: InputsView { upstream_base_url: text, ..inputs }, ..flow },
            if crate::wizard::proposed_api_key(flow.existing) is Some {
                Stage::KeepApiKey
            } else {
                Stage::ApiKey
            },
        ),
        Stage::ApiKey => advanced(
            FlowView {
                inputs: InputsView {
                    upstream_api_key: crate::wizard::entered_secret(text),
                    ..inputs
                },
                ..flow
            },
            Stage::UpstreamModel,
        ),
        Stage::UpstreamModel => advanced(
            FlowView { inputs: InputsView { upstream_model: text, ..inputs }, ..flow },
            Stage::RequestLogPath,
        ),
        Stage::RequestLogPath => advanced(
            FlowView { inputs: InputsView { upstream_request_log_path: text, ..inputs }, ..flow },
            Stage::ChatKwargs,
        ),
        Stage::ChatKwargs => advanced(
            FlowView { chat_kwargs_text: text, ..flow },
            Stage::BraveUrl,
        ),
        Stage::BraveUrl => advanced(
            FlowView { inputs: InputsView { brave_base_url: text, ..inputs }, ..flow },
            Stage::BraveApiKey,
        ),
        _ => advanced(
            FlowView { inputs: InputsView { brave_api_key: text, ..inputs }, ..flow },
            Stage::BraveMaxResults,
        ),
    }
}

/// The step after the last setting: the chat kwargs are read before the config is
/// offered for writing.
pub open spec fn after_timeout(flow: FlowView, secs: u64) -> StepView {
    match crate::wizard::entered_chat_kwargs(flow.chat_kwargs_text) {
        Ok(entries) => advanced(
            FlowView {
                inputs: InputsView {
                    request_timeout_secs: secs,
                    upstream_chat_kwargs: entries,
                    ..flow.inputs
                },
                ..flow
            },
            Stage::ConfirmWrite,
        ),
        Err(message) => StepView::Fail(message),
    }
}

/// The step after an answer.
pub open spec fn next(flow: FlowView, answer: AnswerView) -> StepView {
    match answer {
        AnswerView::Confirmed(yes) => after_confirmation(flow, yes),
        AnswerView::Text(text) => after_text(flow, text),
        AnswerView::Count(n) => advanced(
            FlowView { inputs: InputsView { brave_max_results: n, ..flow.inputs }, ..flow },
            Stage::RequestTimeout,
        ),
        AnswerView::Seconds(secs) => after_timeout(flow, secs),
        AnswerView::Failed(message) => StepView::Fail(failure_head(flow.stage) + message),
    }
}

/// Whether another question follows an answer: the question could be put, the write is
/// not yet decided on, the loss that was warned of is agreed to, and the chat kwargs,
/// once all settings are there, can be read.
pub open spec fn goes_on(flow: FlowView, answer: AnswerView) -> bool {
    match answer {
        AnswerView::Confirmed(yes) => match flow.stage {
            Stage::KeepApiKey => true,
            Stage::ConfirmCollapse => yes,
            _ => false,
        },
        AnswerView::Text(_) => true,
        AnswerView::Count(_) => true,
        AnswerView::Seconds(_) => crate::wizard::entered_chat_kwargs(flow.chat_kwargs_text) is Ok,
        AnswerView::Failed(_) => false,
    }
}

/// What the message starts with if the question of a stage could not be put.
fn failure_head_text(stage: Stage) -> (r: &'static str)
    ensures
        r@ == failure_head(stage),
{
    match stage {
        Stage::ConfirmCollapse => "failed to confirm config collapse: ",
        Stage::BindAddress => "failed to read bind address: ",
        Stage::UpstreamUrl => "failed to read upstream URL: ",
        Stage::KeepApiKey => "failed to confirm upstream API key: ",
        Stage::ApiKey => "failed to read upstream API key: ",
        Stage::UpstreamModel => "failed to read upstream model override: ",
        Stage::RequestLogPath => "failed to read upstream request log path: ",
        Stage::ChatKwargs => "failed to read upstream chat kwargs: ",
        Stage::BraveUrl => "failed to read Brave URL: ",
        Stage::BraveApiKey => "failed to read Brave API key: ",
        Stage::BraveMaxResults => "failed to read Brave max results: ",
        Stage::RequestTimeout => "failed to read timeout: ",
        Stage::ConfirmWrite => "failed to confirm config write: ",
    }
}

impl ConfigureFlow {
    /// Opens the dialogue over the config that was loaded from `path`, or fails as the
    /// loading did.
    pub fn start(loaded: Result<PersistedConfig, String>, path: String) -> (r: FlowStep)
        ensures
            match loaded {
                Ok(existing) => r@ == opening(existing@, path@) && r is Ask,
                Err(message) => r@ == StepView::Fail(message@),
            },
    {
        let existing = match loaded {
            Ok(existing) => existing,
            Err(message) => {
                return FlowStep::Fail(message);
            },
        };
        let warning = configure_collapse_warning(&existing);
        let mut notices: Vec<String> = Vec::new();
        notices.push("Configuring llmconduit".to_owned());
        notices.push(followed_by("Config file: ", path.as_str()));
        let stage = match warning {
            Some(warning) => {
                notices.push(warning);
                Stage::ConfirmCollapse
            },
            None => Stage::BindAddress,
        };
        assert(crate::text::string_views(notices@) =~= opening_notices(existing@, path@));
        let inputs = ConfigureFlowInputs {
            bind_addr: String::new(),
            upstream_base_url: String::new(),
            upstream_api_key: None,
            upstream_model: String::new(),
            upstream_request_log_path: String::new(),
            upstream_chat_kwargs: json_new(),
            brave_base_url: String::new(),
            brave_api_key: String::new(),
            brave_max_results: 0,
            request_timeout_secs: 0,
        };
        let flow = ConfigureFlow { existing, path, stage, inputs, chat_kwargs_text: String::new() };
        flow.ask(notices)
    }

    /// The question that the dialogue waits on; it can always be put together. A config
    /// whose chat kwargs have been proposed is one that a rerun keeps, if the wizard
    /// itself emitted it and the chat kwargs hold no number with a fraction or an exponent.
    pub fn prompt(&self) -> (r: Result<Prompt, String>)
        ensures
            match r {
                Ok(prompt) => question(self@) == Ok::<PromptView, Seq<char>>(prompt@),
                Err(message) => question(self@) == Err::<PromptView, Seq<char>>(message@),
            },
            r is Ok,
            self.stage is ChatKwargs ==> crate::transcript::rerun_keeps_float_free(self@.existing),
    {
        let existing = &self.existing;
        let prompt = match self.stage {
            Stage::ConfirmCollapse => Prompt::Confirm {
                message: "Continue anyway?".to_owned(),
                default: false,
            },
            Stage::BindAddress => Prompt::Input {
                message: "Bind address".to_owned(),
                default: existing.bind_addr.clone(),
                allow_empty: false,
            },
            Stage::UpstreamUrl => Prompt::Input {
                message: "Upstream chat-completions base URL".to_owned(),
                default: existing_url(existing),
                allow_empty: false,
            },
            Stage::KeepApiKey => Prompt::Confirm {
                message: "Keep existing upstream API key?".to_owned(),
                default: true,
            },
            Stage::ApiKey => Prompt::Password {
                message: "Upstream API key (leave blank for local/no auth)".to_owned(),
            },
            Stage::UpstreamModel => Prompt::Input {
                message:
                    "Upstream model override (leave blank to pass through request model)".to_owned(),
                default: existing_default_model(existing),
                allow_empty: true,
            },
            Stage::RequestLogPath => Prompt::Input {
                message: "Upstream request JSONL log path (leave blank to disable)".to_owned(),
                default: existing_request_log_path(existing),
                allow_empty: true,
            },
            Stage::ChatKwargs => {
                let proposed = existing_chat_kwargs_text(existing);
                proof {
                    crate::transcript::law_rerun_keeps_config(existing@);
                }
                match proposed {
                    Ok(text) => Prompt::Input {
                        message:
                            "Extra upstream chat kwargs as JSON object (leave blank for none)".to_owned(),
                        default: text,
                        allow_empty: true,
                    },
                    Err(message) => {
                        return Err(message);
                    },
                }
            },
            Stage::BraveUrl => Prompt::Input {
                message: "Brave Search base URL".to_owned(),
                default: existing.brave_base_url.clone(),
                allow_empty: false,
            },
            Stage::BraveApiKey => Prompt::Password {
                message:
                    "Brave Search API key (leave blank to disable provider-side web_search)".to_owned(),
            },
            Stage::BraveMaxResults => Prompt::Count {
                message: "Brave max results".to_owned(),
                default: existing.brave_max_results,
            },
            Stage::RequestTimeout => Prompt::Seconds {
                message: "Request timeout (seconds)".to_owned(),
                default: existing.request_timeout_secs,
            },
            Stage::ConfirmWrite => {
                let mut message = followed_by("Write configuration to ", self.path.as_str());
                message.append("?");
                Prompt::Confirm { message, default: true }
            },
        };
        Ok(prompt)
    }

    /// The step that puts the question, after some notices.
    fn ask(self, notices: Vec<String>) -> (r: FlowStep)
        ensures
            r@ == asked(self@, crate::text::string_views(notices@)),
            r is Ask,
            self.stage is ChatKwargs ==> crate::transcript::rerun_keeps_float_free(self@.existing),
    {
        match self.prompt() {
            Ok(prompt) => FlowStep::Ask { flow: self, notices, prompt },
            Err(message) => FlowStep::Fail(message),
        }
    }

    /// Moves the dialogue to `stage`.
    fn advance(self, stage: Stage) -> (r: FlowStep)
        ensures
            r@ == advanced(self@, stage),
            r is Ask,
            stage is ChatKwargs ==> crate::transcript::rerun_keeps_float_free(self@.existing),
    {
        let mut flow = self;
        flow.stage = stage;
        let notices: Vec<String> = Vec::new();
        assert(crate::text::string_views(notices@) =~= Seq::empty());
        flow.ask(notices)
    }

    /// Whether an answer is of the kind that the dialogue waits for.
    pub fn accepts(&self, answer: &Answer) -> (r: bool)
        ensures
            r == accepts(self.stage, answer@),
    {
        match answer {
            Answer::Confirmed(_) => matches!(
                self.stage,
                Stage::ConfirmCollapse | Stage::KeepApiKey | Stage::ConfirmWrite
            ),
            Answer::Text(_) => !matches!(
                self.stage,
                Stage::ConfirmCollapse | Stage::KeepApiKey | Stage::ConfirmWrite
                | Stage::BraveMaxResults | Stage::RequestTimeout
            ),
            Answer::Count(_) => matches!(self.stage, Stage::BraveMaxResults),
            Answer::Seconds(_) => matches!(self.stage, Stage::RequestTimeout),
            Answer::Failed(_) => true,
        }
    }

    /// Takes the answer to the question that the dialogue waits on; says whether another
    /// question follows. The step that puts
    /// the question for the chat kwargs also says what [`ConfigureFlow::prompt`] says of a
    /// rerun.
    pub fn answer(self, answer: Answer) -> (r: FlowStep)
        requires
            accepts(self.stage, answer@),
        ensures
            r@ == next(self@, answer@),
            r is Ask <==> goes_on(self@, answer@),
            self.stage is RequestLogPath && answer@ is Text
                ==> crate::transcript::rerun_keeps_float_free(self@.existing),
    {
        match answer {
            Answer::Confirmed(yes) => self.confirmed(yes),
            Answer::Text(text) => self.entered(text),
            Answer::Count(n) => {
                let mut flow = self;
                flow.inputs.brave_max_results = n;
                flow.advance(Stage::RequestTimeout)
            },
            Answer::Seconds(secs) => self.timed(secs),
            Answer::Failed(message) => FlowStep::Fail(
                followed_by(failure_head_text(self.stage), message.as_str()),
            ),
        }
    }

    fn confirmed(self, yes: bool) -> (r: FlowStep)
        ensures
            r@ == after_confirmation(self@, yes),
            r is Ask <==> goes_on(self@, AnswerView::Confirmed(yes)),
    {
        let mut flow = self;
        match flow.stage {
            Stage::KeepApiKey => if yes {
                flow.inputs.upstream_api_key = existing_api_key(&flow.existing);
                flow.advance(Stage::UpstreamModel)
            } else {
                flow.advance(Stage::ApiKey)
            },
            Stage::ConfirmCollapse => if yes {
                flow.advance(Stage::BindAddress)
            } else {
                FlowStep::Fail("configuration cancelled".to_owned())
            },
            _ => if yes {
                FlowStep::Write(build_configured_persisted_config(&flow.existing, flow.inputs))
            } else {
                FlowStep::Fail("configuration cancelled".to_owned())
            },
        }
    }

    fn entered(self, text: String) -> (r: FlowStep)
        ensures
            r@ == after_text(self@, text@),
            r is Ask,
            self.stage is RequestLogPath ==> crate::transcript::rerun_keeps_float_free(
                self@.existing,
            ),
    {
        let mut flow = self;
        match flow.stage {
            Stage::BindAddress => {
                flow.inputs.bind_addr = text;
                flow.advance(Stage::UpstreamUrl)
            },
            Stage::UpstreamUrl => {
                flow.inputs.upstream_base_url = text;
                match existing_api_key(&flow.existing) {
                    Some(_) => flow.advance(Stage::KeepApiKey),
                    None => flow.advance(Stage::ApiKey),
                }
            },
            Stage::ApiKey => {
                flow.inputs.upstream_api_key = unless_blank(text);
                flow.advance(Stage::UpstreamModel)
            },
            Stage::UpstreamModel => {
                flow.inputs.upstream_model = text;
                flow.advance(Stage::RequestLogPath)
            },
            Stage::RequestLogPath => {
                flow.inputs.upstream_request_log_path = text;
                flow.advance(Stage::ChatKwargs)
            },
            Stage::ChatKwargs => {
                flow.chat_kwargs_text = text;
                flow.advance(Stage::BraveUrl)
            },
            Stage::BraveUrl => {
                flow.inputs.brave_base_url = text;
                flow.advance(Stage::BraveApiKey)
            },
            _ => {
                flow.inputs.brave_api_key = text;
                flow.advance(Stage::BraveMaxResults)
            },
        }
    }

    fn timed(self, secs: u64) -> (r: FlowStep)
        ensures
            r@ == after_timeout(self@, secs),
            r is Ask <==> goes_on(self@, AnswerView::Seconds(secs)),
    {
        let mut flow = self;
        match read_chat_kwargs(flow.chat_kwargs_text.as_str()) {
            Ok(chat_kwargs) => {
                flow.inputs.request_timeout_secs = secs;
                flow.inputs.upstream_chat_kwargs = chat_kwargs;
                flow.advance(Stage::ConfirmWrite)
            },
            Err(message) => FlowStep::Fail(message),
        }
    }
}

/// How the dialogue ends once its config was to be written: with the config, or with
/// the reason why it could not be written.
pub fn finish(config: PersistedConfig, written: Result<(), String>) -> (r: Result<
    PersistedConfig,
    String,
>)
    ensures
        r == (match written {
            Ok(_) => Ok::<PersistedConfig, String>(config),
            Err(message) => Err::<PersistedConfig, String>(message),
        }),
{
    match written {
        Ok(_) => Ok(config),
        Err(message) => Err(message),
    }
}

} // verus!
