//! The slash command of the bot: its definition and the reading of its
//! option.

use vstd::prelude::*;

verus! {

/// The value that the platform resolved for an option of a command.
#[derive(Debug, Clone, PartialEq, Eq)]
pub enum OptionValue {
    /// A text.
    Text(String),
    /// A whole number.
    Integer(i64),
    /// A truth value.
    Boolean(bool),
    /// Anything else: a user, a channel, a role, a number with a fraction, an
    /// uploaded file.
    Other,
}

/// An option attached to an invocation of a command.
#[derive(Debug, Clone, PartialEq, Eq)]
pub struct CommandOption {
    /// The name of the option.
    pub name: String,
    /// The resolved value, where the platform sent one.
    pub resolved: Option<OptionValue>,
}

/// Why the options of an invocation do not give a city.
#[derive(Debug, Clone, Copy, PartialEq, Eq, Structural)]
pub enum InputShapeError {
    /// The invocation carries no option.
    MissingOption,
    /// The first option carries no resolved value.
    MissingValue,
    /// The value of the first option is not a text.
    WrongType,
}

/// Where an invocation is routed to.
#[derive(Debug, Clone, PartialEq, Eq)]
pub enum Route {
    /// To the weather lookup, for this city.
    Weather { city: String },
    /// Nowhere: the command is not one that the bot answers.
    Ignored,
}

/// The mathematical content of a [`Route`].
pub enum RouteView {
    Weather { city: Seq<char> },
    Ignored,
}

impl View for Route {
    type V = RouteView;

    open spec fn view(&self) -> RouteView {
        match self {
            Route::Weather { city } => RouteView::Weather { city: city@ },
            Route::Ignored => RouteView::Ignored,
        }
    }
}

/// One option in the definition of a command.
#[derive(Debug, Clone, PartialEq, Eq)]
pub struct OptionDefinition {
    /// The name of the option.
    pub name: String,
    /// What the option is for.
    pub description: String,
    /// The platform's number for the type of the option's value.
    pub kind: u8,
    /// Whether an invocation must give the option.
    pub required: bool,
}

/// The definition of a command as it is registered with the platform.
#[derive(Debug, Clone, PartialEq, Eq)]
pub struct CommandDefinition {
    /// The name by which the command is invoked.
    pub name: String,
    /// What the command is for.
    pub description: String,
    /// The options of the command, in order.
    pub options: Vec<OptionDefinition>,
}

/// The platform's number for an option whose value is a text.
pub const STRING_OPTION_KIND: u8 = 3;

/// The name of the one command that the bot answers.
pub open spec fn command_name() -> Seq<char> {
    "test"@
}

/// The city that an invocation asks for: the text that the first option
/// resolved to. The name of the option and any further options are not
/// looked at.
pub open spec fn city_of(options: Seq<CommandOption>) -> Result<Seq<char>, InputShapeError> {
    if options.len() == 0 {
        Err(InputShapeError::MissingOption)
    } else {
        match options[0].resolved {
            None => Err(InputShapeError::MissingValue),
            Some(OptionValue::Text(city)) => Ok(city@),
            Some(_) => Err(InputShapeError::WrongType),
        }
    }
}

/// The text of a city option as a result over views.
pub open spec fn city_view(city: Result<&str, InputShapeError>) -> Result<
    Seq<char>,
    InputShapeError,
> {
    match city {
        Ok(text) => Ok(text@),
        Err(error) => Err(error),
    }
}

/// A routing decision as a result over views.
pub open spec fn route_view(route: Result<Route, InputShapeError>) -> Result<
    RouteView,
    InputShapeError,
> {
    match route {
        Ok(route) => Ok(route@),
        Err(error) => Err(error),
    }
}

/// Where an invocation goes, by the name of its command and its options:
/// the weather command goes to the lookup of its city and fails where its
/// options give none; every other command is ignored, whatever its options.
pub open spec fn route_of(name: Seq<char>, options: Seq<CommandOption>) -> Result<
    RouteView,
    InputShapeError,
> {
    if name == command_name() {
        match city_of(options) {
            Ok(city) => Ok(RouteView::Weather { city }),
            Err(error) => Err(error),
        }
    } else {
        Ok(RouteView::Ignored)
    }
}

/// Tells whether `name` is the name of the command that the bot answers.
pub fn is_weather_command(name: &str) -> (yes: bool)
    ensures
        yes == (name@ == command_name()),
{
    let given = String::from_str(name);
    let known = String::from_str("test");
    given == known
}

/// Reads the city off the options of an invocation.
pub fn city_option(options: &Vec<CommandOption>) -> (city: Result<&str, InputShapeError>)
    ensures
        city_view(city) == city_of(options@),
{
    if options.len() == 0 {
        return Err(InputShapeError::MissingOption);
    }
    match &options[0].resolved {
        None => Err(InputShapeError::MissingValue),
        Some(OptionValue::Text(city)) => Ok(city.as_str()),
        Some(_) => Err(InputShapeError::WrongType),
    }
}

/// Routes an invocation by the name of its command and its options.
pub fn route(name: &str, options: &Vec<CommandOption>) -> (route: Result<Route, InputShapeError>)
    ensures
        route_view(route) == route_of(name@, options@),
{
    if is_weather_command(name) {
        match city_option(options) {
            Ok(city) => Ok(Route::Weather { city: String::from_str(city) }),
            Err(error) => Err(error),
        }
    } else {
        Ok(Route::Ignored)
    }
}

impl InputShapeError {
    /// What is wrong, in words.
    pub open spec fn message_of(self) -> Seq<char> {
        match self {
            InputShapeError::MissingOption => "Expected city option"@,
            InputShapeError::MissingValue => "Expected city object"@,
            InputShapeError::WrongType => "Expected string for city"@,
        }
    }

    /// Says in words what is wrong.
    pub fn message(&self) -> (text: &'static str)
        ensures
            text@ == self.message_of(),
    {
        match self {
            InputShapeError::MissingOption => "Expected city option",
            InputShapeError::MissingValue => "Expected city object",
            InputShapeError::WrongType => "Expected string for city",
        }
    }
}

/// The definition of the weather command: it is named as the dispatcher
/// expects, and has one option, a required text named `city`.
pub fn command_definition() -> (definition: CommandDefinition)
    ensures
        definition.name@ == command_name(),
        definition.description@ == "Get the weather for a city"@,
        definition.options@.len() == 1,
        definition.options@[0].name@ == "city"@,
        definition.options@[0].description@ == "The city to lookup"@,
        definition.options@[0].kind == STRING_OPTION_KIND,
        definition.options@[0].required,
{
    let mut options = Vec::new();
    options.push(
        OptionDefinition {
            name: String::from_str("city"),
            description: String::from_str("The city to lookup"),
            kind: STRING_OPTION_KIND,
            required: true,
        },
    );
    CommandDefinition {
        name: String::from_str("test"),
        description: String::from_str("Get the weather for a city"),
        options,
    }
}

} // verus!
