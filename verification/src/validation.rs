//! The rules that a request body meets before the service acts on it.

use vstd::prelude::*;
use vstd::string::*;

verus! {

/// A rule that a workspace's fields broke.
#[derive(Debug, Clone, Copy, PartialEq, Eq, Structural)]
pub enum ValidationError {
    NameEmpty,
    NameTooLong,
    TypeEmpty,
    WebhookUrlEmpty,
}

impl ValidationError {
    /// The field and what is wrong with it.
    pub open spec fn message(self) -> Seq<char> {
        match self {
            ValidationError::NameEmpty => "name: text can not be empty"@,
            ValidationError::NameTooLong => "name: text can not be longer than 100 characters"@,
            ValidationError::TypeEmpty => "ws_type: text can not be empty"@,
            ValidationError::WebhookUrlEmpty => "webhook_url: text can not be empty"@,
        }
    }

    pub fn to_string(&self) -> (r: String)
        ensures
            r@ == self.message(),
    {
        match self {
            ValidationError::NameEmpty => String::from_str("name: text can not be empty"),
            ValidationError::NameTooLong => String::from_str(
                "name: text can not be longer than 100 characters",
            ),
            ValidationError::TypeEmpty => String::from_str("ws_type: text can not be empty"),
            ValidationError::WebhookUrlEmpty => String::from_str(
                "webhook_url: text can not be empty",
            ),
        }
    }
}

/// A length lies within the bounds that are given.
pub open spec fn length_in_bounds(len: nat, min: Option<u64>, max: Option<u64>) -> bool {
    &&& min matches Some(least) ==> least <= len
    &&& max matches Some(most) ==> len <= most
}

/// `validator::validate_length`, on a string and without its `equal`
/// argument: whether the number of characters lies within the bounds given.
#[verifier::external_body]
fn validate_length(value: &String, min: Option<u64>, max: Option<u64>) -> (ok: bool)
    ensures
        ok == length_in_bounds(value@.len(), min, max),
{
    validator::validate_length(value, min, max, None)
}

/// The rules that a workspace's fields break, in the order name, type, webhook URL.
pub open spec fn workspace_field_violations(
    name: Seq<char>,
    ws_type: Seq<char>,
    webhook_url: Seq<char>,
) -> Seq<ValidationError> {
    (if name.len() < 1 {
        seq![ValidationError::NameEmpty]
    } else if name.len() > 100 {
        seq![ValidationError::NameTooLong]
    } else {
        Seq::<ValidationError>::empty()
    }) + (if ws_type.len() < 1 {
        seq![ValidationError::TypeEmpty]
    } else {
        Seq::<ValidationError>::empty()
    }) + (if webhook_url.len() < 1 {
        seq![ValidationError::WebhookUrlEmpty]
    } else {
        Seq::<ValidationError>::empty()
    })
}

/// Holds the three fields of a workspace to their rules: a name of 1 to 100
/// characters, a type and a webhook URL that are not empty.
pub fn validate_workspace_fields(name: &String, ws_type: &String, webhook_url: &String) -> (r:
    Result<(), Vec<ValidationError>>)
    ensures
        match r {
            Ok(()) => workspace_field_violations(name@, ws_type@, webhook_url@).len() == 0,
            Err(found) => found@.len() > 0 && found@ == workspace_field_violations(
                name@,
                ws_type@,
                webhook_url@,
            ),
        },
{
    let mut found: Vec<ValidationError> = Vec::new();
    if !validate_length(name, Some(1), None) {
        found.push(ValidationError::NameEmpty);
    } else if !validate_length(name, None, Some(100)) {
        found.push(ValidationError::NameTooLong);
    }
    if !validate_length(ws_type, Some(1), None) {
        found.push(ValidationError::TypeEmpty);
    }
    if !validate_length(webhook_url, Some(1), None) {
        found.push(ValidationError::WebhookUrlEmpty);
    }
    assert(found@ =~= workspace_field_violations(name@, ws_type@, webhook_url@));
    if found.len() == 0 {
        Ok(())
    } else {
        Err(found)
    }
}

/// The messages of the rules broken, separated by a comma and a space.
pub open spec fn joined_messages(found: Seq<ValidationError>) -> Seq<char>
    decreases found.len(),
{
    if found.len() == 0 {
        Seq::<char>::empty()
    } else if found.len() == 1 {
        found[0].message()
    } else {
        joined_messages(found.drop_last()) + ", "@ + found.last().message()
    }
}

/// What a caller is told when its request body breaks the rules.
pub open spec fn rejection_message(found: Seq<ValidationError>) -> Seq<char> {
    "Validation error: ["@ + joined_messages(found) + "]"@
}

/// Writes the answer to a request body that broke the rules in `found`.
pub fn rejection_text(found: &Vec<ValidationError>) -> (r: String)
    ensures
        r@ == rejection_message(found@),
{
    let mut out = String::from_str("Validation error: [");
    let ghost start = out@;
    let mut i: usize = 0;
    while i < found.len()
        invariant
            i <= found.len(),
            start == "Validation error: ["@,
            out@ == start + joined_messages(found@.take(i as int)),
        decreases found.len() - i,
    {
        proof {
            assert(found@.take(i as int + 1).drop_last() =~= found@.take(i as int));
        }
        if i > 0 {
            out.append(", ");
        }
        out.append(found[i].to_string().as_str());
        i = i + 1;
        assert(out@ =~= start + joined_messages(found@.take(i as int)));
    }
    assert(found@.take(i as int) =~= found@);
    out.append("]");
    out
}

/// A request body with rules of its own.
pub trait Validate {
    /// The rules that the value breaks; none, if it is valid.
    spec fn violations(&self) -> Seq<ValidationError>;

    /// Finds the rules that the value breaks.
    fn validate(&self) -> (r: Result<(), Vec<ValidationError>>)
        ensures
            match r {
                Ok(()) => self.violations().len() == 0,
                Err(found) => found@.len() > 0 && found@ == self.violations(),
            },
    ;
}

} // verus!
