use nu_dock::cell::Cell;
use nu_dock::commands::{Cmd, CommandInfo, ContainersCommand, Dock, ImagesCommand, Implementation, Parameter};
use nu_dock::error::{ErrorKind, LabeledError, RequestContext, TransportError};
use nu_dock::mode::Mode;
use nu_dock::pipeline::{Action, Event, Pipeline, Stage};
use nu_dock::rules::rules_for;

fn context() -> RequestContext {
    RequestContext { start: 0, end: 4 }
}

fn argument_context() -> RequestContext {
    RequestContext { start: 5, end: 12 }
}

fn plain(name: &str, description: &str) -> CommandInfo {
    CommandInfo {
        name: name.to_string(),
        description: description.to_string(),
        required: Vec::new(),
        is_filter: true,
    }
}

fn assert_starts(pipeline: &Pipeline, mode: Mode, context: RequestContext) {
    assert_eq!(pipeline.mode, mode);
    assert_eq!(pipeline.context, context);
    assert_eq!(pipeline.rules, rules_for(mode));
    assert_eq!(pipeline.stage, Stage::Idle);
}

#[test]
fn mode_parse_knows_exactly_two_names() {
    assert_eq!(Mode::parse("images"), Some(Mode::Images));
    assert_eq!(Mode::parse("containers"), Some(Mode::Containers));
    for other in ["volumes", "", "Images", "image", "containers ", " images", "CONTAINERS", "imagescontainers"] {
        assert_eq!(Mode::parse(other), None);
    }
}

#[test]
fn containers_command_declares_itself() {
    assert_eq!(
        ContainersCommand.config(),
        plain("dock containers", "View information about docker containers")
    );
    assert_eq!(Cmd.config(), plain("dock containers", "View information about docker containers"));
}

#[test]
fn images_command_declares_itself() {
    assert_eq!(ImagesCommand.config(), plain("dock images", "View information about docker images"));
}

#[test]
fn dock_command_declares_itself() {
    assert_eq!(Dock.config(), plain("dock", "View information about docker images and containers"));
}

#[test]
fn dispatching_command_requires_one_argument() {
    assert_eq!(
        Implementation::new().config(),
        CommandInfo {
            name: "dock".to_string(),
            description: "View information about docker images and containers".to_string(),
            required: vec![Parameter {
                name: "COMMAND".to_string(),
                description: "either 'images' or 'containers'".to_string(),
            }],
            is_filter: true,
        }
    );
    assert_eq!(Implementation::new(), Implementation {});
}

#[test]
fn dock_usage_is_description_and_help_pointer() {
    assert_eq!(
        Dock.usage(),
        "View information about docker images and containers\nRun with --help for details on subcommands"
    );
}

#[test]
fn dock_answers_with_its_usage_only() {
    assert_eq!(
        Dock.begin_filter(),
        vec![Cell::Text(
            "View information about docker images and containers\nRun with --help for details on subcommands"
                .to_string()
        )]
    );
}

#[test]
fn commands_start_idle_pipelines_for_their_listing() {
    assert_starts(&ContainersCommand.begin_filter(context()), Mode::Containers, context());
    assert_starts(&Cmd.begin_filter(context()), Mode::Containers, context());
    assert_starts(&ImagesCommand.begin_filter(context()), Mode::Images, context());
}

#[test]
fn dispatching_command_starts_the_named_listing() {
    let mut plugin = Implementation::new();
    let images = plugin.begin_filter("images", argument_context(), context()).unwrap();
    assert_starts(&images, Mode::Images, context());
    let containers = plugin.begin_filter("containers", argument_context(), context()).unwrap();
    assert_starts(&containers, Mode::Containers, context());
}

#[test]
fn volumes_is_an_input_error_and_nothing_is_fetched() {
    let started = Implementation::new().begin_filter("volumes", argument_context(), context());
    assert_eq!(
        started,
        Err(LabeledError {
            kind: ErrorKind::Input,
            label: "invalid subcommand".to_string(),
            message: "Invalid subcommand. Expected images or containers".to_string(),
            context: argument_context(),
        })
    );
}

#[test]
fn started_pipeline_asks_for_its_listing_first() {
    let mut pipeline = Implementation::new().begin_filter("images", argument_context(), context()).unwrap();
    let action: Action<u8, u8> = pipeline.step(Event::Begin);
    assert_eq!(action, Action::Fetch(Mode::Images));
}

#[test]
fn error_constructors_label_each_kind() {
    let connection =
        LabeledError::fetch_failed(&TransportError::ConnectionFailed("connection refused".to_string()), context());
    assert_eq!(connection.kind, ErrorKind::Connection);
    assert_eq!(connection.label, "error");
    assert_eq!(connection.message, "dock failed: connection refused");
    assert_eq!(connection.context, context());
    let api = LabeledError::fetch_failed(&TransportError::ApiError("".to_string()), context());
    assert_eq!(api.kind, ErrorKind::Api);
    assert_eq!(api.label, "error");
    assert_eq!(api.message, "dock failed: ");
    let conversion = LabeledError::conversion_failed("unsupported shape", argument_context());
    assert_eq!(conversion.kind, ErrorKind::Serialization);
    assert_eq!(conversion.label, "failed to convert output values");
    assert_eq!(conversion.message, "failed to convert output values: unsupported shape");
    assert_eq!(conversion.context, argument_context());
    let input = LabeledError::invalid_subcommand(argument_context());
    assert_eq!(input.kind, ErrorKind::Input);
    assert_eq!(input.label, "invalid subcommand");
    assert_eq!(input.message, "Invalid subcommand. Expected images or containers");
    assert_eq!(input.context, argument_context());
}
