//! The workspace entity: its identifier, its destination type and the record itself.

use crate::text::{decimal, decimal_string};
use vstd::prelude::*;
use vstd::string::*;

verus! {

pub type WorkspaceIdTypeAlias = i32;

/// Identifier of a workspace. The repository assigns it; it never changes afterwards.
#[derive(Debug, Clone, Copy, PartialEq, Eq, PartialOrd, Ord, Hash, Default, Structural)]
pub struct WorkspaceId {
    id: WorkspaceIdTypeAlias,
}

impl View for WorkspaceId {
    type V = int;

    closed spec fn view(&self) -> int {
        self.id as int
    }
}

impl WorkspaceId {
    pub fn new(id: WorkspaceIdTypeAlias) -> (r: Self)
        ensures
            r@ == id,
    {
        Self { id }
    }

    pub fn to_raw(&self) -> (r: WorkspaceIdTypeAlias)
        ensures
            r == self@,
    {
        self.id
    }

    /// The identifier in decimal.
    pub fn to_string(&self) -> (r: String)
        ensures
            r@ == decimal(self@),
    {
        decimal_string(self.id as i64)
    }

    /// An identifier is nothing more than its integer: equal integers, equal identifiers.
    pub proof fn lemma_view_injective(a: WorkspaceId, b: WorkspaceId)
        requires
            a@ == b@,
        ensures
            a == b,
    {
    }
}

/// Why a token names no workspace type.
#[derive(Debug, Clone, Copy, PartialEq, Eq, Structural)]
pub enum ParseError {
    VariantNotFound,
}

impl ParseError {
    pub fn to_string(&self) -> (r: String)
        ensures
            r@ == "Matching variant not found"@,
    {
        String::from_str("Matching variant not found")
    }
}

/// The kind of chat service a workspace lives on. The set is closed.
#[derive(Debug, Clone, Copy, PartialEq, Eq, Hash, Structural)]
pub enum WorkspaceType {
    Slack,
    Discord,
}

impl WorkspaceType {
    /// The lower-case token that stands for the type on the wire and in storage.
    pub open spec fn token(self) -> Seq<char> {
        match self {
            WorkspaceType::Slack => "slack"@,
            WorkspaceType::Discord => "discord"@,
        }
    }

    /// The type that a token names, if it names one.
    pub open spec fn parse(token: Seq<char>) -> Option<WorkspaceType> {
        if token == "slack"@ {
            Some(WorkspaceType::Slack)
        } else if token == "discord"@ {
            Some(WorkspaceType::Discord)
        } else {
            None
        }
    }

    pub fn as_str(&self) -> (r: &'static str)
        ensures
            r@ == self.token(),
    {
        match self {
            WorkspaceType::Slack => "slack",
            WorkspaceType::Discord => "discord",
        }
    }

    pub fn to_string(&self) -> (r: String)
        ensures
            r@ == self.token(),
    {
        String::from_str(self.as_str())
    }

    /// Reads a token. Exactly the two tokens of `token` are accepted.
    pub fn from_str(s: &str) -> (r: Result<WorkspaceType, ParseError>)
        ensures
            match r {
                Ok(t) => Self::parse(s@) == Some(t),
                Err(e) => Self::parse(s@) is None && e == ParseError::VariantNotFound,
            },
    {
        let given = String::from_str(s);
        if given == String::from_str("slack") {
            Ok(WorkspaceType::Slack)
        } else if given == String::from_str("discord") {
            Ok(WorkspaceType::Discord)
        } else {
            Err(ParseError::VariantNotFound)
        }
    }

    /// Writing a type as its token and reading the token back gives the same
    /// type, and a token is read as a type only if it is that type's token.
    pub proof fn lemma_token_round_trip(t: WorkspaceType, token: Seq<char>)
        ensures
            Self::parse(t.token()) == Some(t),
            Self::parse(token) == Some(t) <==> token == t.token(),
            Self::parse(token) is None <==> token != "slack"@ && token != "discord"@,
    {
        reveal_strlit("slack");
        reveal_strlit("discord");
        assert("slack"@.len() != "discord"@.len());
    }
}

impl std::str::FromStr for WorkspaceType {
    type Err = ParseError;

    fn from_str(s: &str) -> (r: Result<WorkspaceType, ParseError>)
        ensures
            match r {
                Ok(t) => WorkspaceType::parse(s@) == Some(t),
                Err(e) => WorkspaceType::parse(s@) is None && e == ParseError::VariantNotFound,
            },
    {
        WorkspaceType::from_str(s)
    }
}

/// A workspace as contracts see it.
pub struct WorkspaceView {
    pub id: int,
    pub name: Seq<char>,
    pub ws_type: WorkspaceType,
    pub webhook_url: Seq<char>,
}

impl WorkspaceView {
    /// A name of 1 to 100 characters and a webhook URL that is not empty.
    pub open spec fn is_valid(self) -> bool {
        &&& 1 <= self.name.len() <= 100
        &&& 1 <= self.webhook_url.len()
    }
}

/// A chat destination: where it lives and the webhook that reaches it.
#[derive(Debug, PartialEq, Eq)]
pub struct Workspace {
    pub id: WorkspaceId,
    pub name: String,
    pub ws_type: WorkspaceType,
    pub webhook_url: String,
}

impl View for Workspace {
    type V = WorkspaceView;

    open spec fn view(&self) -> WorkspaceView {
        WorkspaceView {
            id: self.id@,
            name: self.name@,
            ws_type: self.ws_type,
            webhook_url: self.webhook_url@,
        }
    }
}

impl Clone for Workspace {
    fn clone(&self) -> (r: Self)
        ensures
            r@ == self@,
    {
        Workspace {
            id: self.id,
            name: self.name.clone(),
            ws_type: self.ws_type,
            webhook_url: self.webhook_url.clone(),
        }
    }
}

impl Workspace {
    pub fn new(id: WorkspaceId, name: String, ws_type: WorkspaceType, webhook_url: String) -> (r:
        Self)
        ensures
            r@ == (WorkspaceView {
                id: id@,
                name: name@,
                ws_type: ws_type,
                webhook_url: webhook_url@,
            }),
    {
        Self { id, name, ws_type, webhook_url }
    }
}

/// The views of a list of workspaces, in the list's order.
pub open spec fn workspace_views(list: Seq<Workspace>) -> Seq<WorkspaceView> {
    list.map_values(|w: Workspace| w@)
}

} // verus!
