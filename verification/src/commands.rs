//! The command front-ends: what each command declares to the host, and the
//! pipeline that each one starts.
use crate::cell::Cell;
use crate::error::{input_failure, LabeledError, RequestContext};
use crate::mode::{mode_named, Mode};
use crate::pipeline::{Pipeline, Stage};
use crate::rules::{mode_rules, rule_views};
use vstd::prelude::*;

verus! {

/// A required positional argument of a command: a string, with its help text.
#[derive(Clone, Debug, PartialEq, Eq)]
pub struct Parameter {
    pub name: String,
    pub description: String,
}

/// What a command declares to the host.
#[derive(Clone, Debug, PartialEq, Eq)]
pub struct CommandInfo {
    pub name: String,
    pub description: String,
    pub required: Vec<Parameter>,
    pub is_filter: bool,
}

/// A declaration with its strings as sequences of characters; each required
/// argument is its name and its help text.
pub struct CommandInfoView {
    pub name: Seq<char>,
    pub description: Seq<char>,
    pub required: Seq<(Seq<char>, Seq<char>)>,
    pub is_filter: bool,
}

impl View for CommandInfo {
    type V = CommandInfoView;

    open spec fn view(&self) -> CommandInfoView {
        CommandInfoView {
            name: self.name@,
            description: self.description@,
            required: Seq::new(
                self.required@.len(),
                |i: int| (self.required@[i].name@, self.required@[i].description@),
            ),
            is_filter: self.is_filter,
        }
    }
}

/// A filter command that takes no argument.
pub open spec fn plain_filter(name: Seq<char>, description: Seq<char>) -> CommandInfoView {
    CommandInfoView { name, description, required: Seq::empty(), is_filter: true }
}

/// The declaration of `dock containers`.
pub open spec fn containers_info() -> CommandInfoView {
    plain_filter("dock containers"@, "View information about docker containers"@)
}

/// The declaration of `dock images`.
pub open spec fn images_info() -> CommandInfoView {
    plain_filter("dock images"@, "View information about docker images"@)
}

/// The declaration of `dock`, the parent of the two listings.
pub open spec fn dock_info() -> CommandInfoView {
    plain_filter("dock"@, "View information about docker images and containers"@)
}

/// The declaration of `dock` in its one-argument form.
pub open spec fn dispatch_info() -> CommandInfoView {
    CommandInfoView {
        name: "dock"@,
        description: "View information about docker images and containers"@,
        required: seq![("COMMAND"@, "either 'images' or 'containers'"@)],
        is_filter: true,
    }
}

/// The text that `dock` answers with.
pub open spec fn usage_text() -> Seq<char> {
    "View information about docker images and containers"@
        + "\nRun with --help for details on subcommands"@
}

/// An idle pipeline for `mode` with that listing's rules and with `context` for its errors.
pub open spec fn starts(pipeline: Pipeline, mode: Mode, context: RequestContext) -> bool {
    &&& pipeline.mode == mode
    &&& pipeline.context == context
    &&& rule_views(pipeline.rules@) == mode_rules(mode)
    &&& pipeline.stage == Stage::Idle
}

/// The declaration of a filter command without arguments.
fn filter(name: &str, description: &str) -> (info: CommandInfo)
    ensures
        info@ == plain_filter(name@, description@),
{
    let info = CommandInfo {
        name: name.to_owned(),
        description: description.to_owned(),
        required: Vec::new(),
        is_filter: true,
    };
    assert(info@.required =~= Seq::empty());
    info
}

/// The `dock containers` command.
#[derive(Clone, Copy, Debug, PartialEq, Eq)]
pub struct ContainersCommand;

impl ContainersCommand {
    /// What the command declares to the host.
    pub fn config(&mut self) -> (info: CommandInfo)
        ensures
            info@ == containers_info(),
    {
        filter("dock containers", "View information about docker containers")
    }

    /// Starts the listing of containers.
    pub fn begin_filter(&mut self, context: RequestContext) -> (pipeline: Pipeline)
        ensures
            starts(pipeline, Mode::Containers, context),
    {
        Pipeline::new(Mode::Containers, context)
    }
}

/// The `dock images` command.
#[derive(Clone, Copy, Debug, PartialEq, Eq)]
pub struct ImagesCommand;

impl ImagesCommand {
    /// What the command declares to the host.
    pub fn config(&mut self) -> (info: CommandInfo)
        ensures
            info@ == images_info(),
    {
        filter("dock images", "View information about docker images")
    }

    /// Starts the listing of images.
    pub fn begin_filter(&mut self, context: RequestContext) -> (pipeline: Pipeline)
        ensures
            starts(pipeline, Mode::Images, context),
    {
        Pipeline::new(Mode::Images, context)
    }
}

/// The `dock containers` command of the stand-alone containers plugin.
#[derive(Clone, Copy, Debug, PartialEq, Eq)]
pub struct Cmd;

impl Cmd {
    /// What the command declares to the host.
    pub fn config(&mut self) -> (info: CommandInfo)
        ensures
            info@ == containers_info(),
    {
        filter("dock containers", "View information about docker containers")
    }

    /// Starts the listing of containers.
    pub fn begin_filter(&mut self, context: RequestContext) -> (pipeline: Pipeline)
        ensures
            starts(pipeline, Mode::Containers, context),
    {
        Pipeline::new(Mode::Containers, context)
    }
}

/// The `dock` command itself, which only points at its subcommands.
#[derive(Clone, Copy, Debug, PartialEq, Eq)]
pub struct Dock;

impl Dock {
    /// The description of `dock` and a pointer to `--help`, on two lines.
    pub fn usage(&mut self) -> (text: String)
        ensures
            text@ == usage_text(),
    {
        let info = self.config();
        info.description.concat("\nRun with --help for details on subcommands")
    }

    /// What the command declares to the host.
    pub fn config(&mut self) -> (info: CommandInfo)
        ensures
            info@ == dock_info(),
    {
        filter("dock", "View information about docker images and containers")
    }

    /// The whole answer of `dock`: one text value, the usage.
    pub fn begin_filter(&mut self) -> (values: Vec<Cell>)
        ensures
            values@.len() == 1,
            values@[0] matches Cell::Text(text) && text@ == usage_text(),
    {
        let mut values: Vec<Cell> = Vec::new();
        values.push(Cell::Text(self.usage()));
        values
    }
}

/// The `dock` command in its one-argument form: the argument names the listing.
#[derive(Clone, Copy, Debug, PartialEq, Eq)]
pub struct Implementation {}

impl Implementation {
    /// The command; it holds nothing.
    pub fn new() -> (plugin: Implementation)
        ensures
            plugin == (Implementation {  }),
    {
        Implementation {  }
    }

    /// What the command declares to the host: a filter with one required argument.
    pub fn config(&mut self) -> (info: CommandInfo)
        ensures
            info@ == dispatch_info(),
    {
        let mut required: Vec<Parameter> = Vec::new();
        required.push(
            Parameter {
                name: "COMMAND".to_owned(),
                description: "either 'images' or 'containers'".to_owned(),
            },
        );
        let info = CommandInfo {
            name: "dock".to_owned(),
            description: "View information about docker images and containers".to_owned(),
            required,
            is_filter: true,
        };
        assert(info@.required =~= dispatch_info().required);
        info
    }

    /// Starts the listing that `argument` names. Any other argument is an
    /// input error that points at the argument, and nothing is started.
    pub fn begin_filter(
        &mut self,
        argument: &str,
        argument_context: RequestContext,
        context: RequestContext,
    ) -> (started: Result<Pipeline, LabeledError>)
        ensures
            match mode_named(argument@) {
                Some(mode) => started matches Ok(pipeline) && starts(pipeline, mode, context),
                None => started matches Err(error) && error@ == input_failure(argument_context),
            },
    {
        match Mode::parse(argument) {
            Some(mode) => Ok(Pipeline::new(mode, context)),
            None => Err(LabeledError::invalid_subcommand(argument_context)),
        }
    }
}

} // verus!
