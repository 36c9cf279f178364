//! Builder of the request that creates a global message command.

use vstd::prelude::*;

use crate::ids::ApplicationId;

verus! {

/// The kind of an application command.
#[derive(Clone, Copy, Debug, Eq, PartialEq, Structural)]
pub enum CommandType {
    ChatInput,
    User,
    Message,
}

/// The body of a create-command request, ready to be serialized and sent
/// by a transport layer.
pub struct CommandPayload {
    pub application_id: Option<ApplicationId>,
    pub default_permission: Option<bool>,
    pub description: Option<String>,
    pub kind: CommandType,
    pub name: String,
}

/// Builder of a request that creates a global message command.
///
/// Creating a command with the same name as an already-existing global
/// command overwrites the old command. Sending the request is a transport
/// concern; the builder only fixes the payload.
pub struct CreateGlobalMessageCommand {
    application_id: ApplicationId,
    default_permission: Option<bool>,
    name: String,
}

impl CreateGlobalMessageCommand {
    /// The application the command is created under.
    pub closed spec fn spec_application_id(&self) -> ApplicationId {
        self.application_id
    }

    /// The default-permission choice made so far.
    pub closed spec fn spec_default_permission(&self) -> Option<bool> {
        self.default_permission
    }

    /// The name of the command.
    pub closed spec fn spec_name(&self) -> Seq<char> {
        self.name@
    }

    /// A new builder with no default-permission choice made.
    pub fn new(application_id: ApplicationId, name: String) -> (r: Self)
        ensures
            r.spec_application_id() == application_id,
            r.spec_default_permission() is None,
            r.spec_name() == name@,
    {
        Self { application_id, default_permission: None, name }
    }

    /// Whether the command is enabled by default when the app is added to
    /// a guild.
    pub fn default_permission(self, default: bool) -> (r: Self)
        ensures
            r.spec_application_id() == self.spec_application_id(),
            r.spec_default_permission() == Some(default),
            r.spec_name() == self.spec_name(),
    {
        Self { default_permission: Some(default), ..self }
    }

    /// The body of the request: a message command carries no description
    /// and no options.
    pub fn payload(&self) -> (r: CommandPayload)
        ensures
            r.application_id == Some(self.spec_application_id()),
            r.default_permission == self.spec_default_permission(),
            r.description is None,
            r.kind == CommandType::Message,
            r.name@ == self.spec_name(),
    {
        CommandPayload {
            application_id: Some(self.application_id),
            default_permission: self.default_permission,
            description: None,
            kind: CommandType::Message,
            name: self.name.clone(),
        }
    }
}

} // verus!
