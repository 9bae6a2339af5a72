//! Orders and how far along they are.

use vstd::prelude::*;
use vstd::string::*;
use crate::text::same_text;

verus! {

/// How far along an order is.
#[derive(Clone, Copy, PartialEq, Eq, Debug, Structural)]
pub enum Status {
    Created,
    Processing,
    Arriving,
    Waiting,
    Received,
}

impl Status {
    /// The status that a stored name stands for, if any. Stored names are
    /// all in lower case.
    pub open spec fn parse(name: Seq<char>) -> Option<Status> {
        if name == "created"@ {
            Some(Status::Created)
        } else if name == "processing"@ {
            Some(Status::Processing)
        } else if name == "arriving"@ {
            Some(Status::Arriving)
        } else if name == "waiting"@ {
            Some(Status::Waiting)
        } else if name == "received"@ {
            Some(Status::Received)
        } else {
            None
        }
    }

    /// The status as it is shown. The last two are shown capitalised.
    pub open spec fn label(self) -> Seq<char> {
        match self {
            Status::Created => "created"@,
            Status::Processing => "processing"@,
            Status::Arriving => "arriving"@,
            Status::Waiting => "Waiting"@,
            Status::Received => "Received"@,
        }
    }

    /// Reads a status from its stored name, or says which name was not one.
    pub fn from_str(s: &str) -> (status: Result<Status, String>)
        ensures
            match Status::parse(s@) {
                Some(st) => status == Ok::<Status, String>(st),
                None => status matches Err(message) && message@ == "Invalid status: "@ + s@,
            },
    {
        if same_text(s, "created") {
            Ok(Status::Created)
        } else if same_text(s, "processing") {
            Ok(Status::Processing)
        } else if same_text(s, "arriving") {
            Ok(Status::Arriving)
        } else if same_text(s, "waiting") {
            Ok(Status::Waiting)
        } else if same_text(s, "received") {
            Ok(Status::Received)
        } else {
            let mut message = "Invalid status: ".to_owned();
            message.append(s);
            Err(message)
        }
    }

    /// The status as it is shown.
    pub fn to_string(&self) -> (name: String)
        ensures
            name@ == self.label(),
    {
        match self {
            Status::Created => "created".to_owned(),
            Status::Processing => "processing".to_owned(),
            Status::Arriving => "arriving".to_owned(),
            Status::Waiting => "Waiting".to_owned(),
            Status::Received => "Received".to_owned(),
        }
    }
}

} // verus!
