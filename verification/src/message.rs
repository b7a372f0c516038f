//! Messages: something that went wrong, and where.

use vstd::prelude::*;
use crate::unist::{Point, Position};
use crate::util::debug::decimal;
use crate::util::debug::push_decimal;

verus! {

/// A message.
#[derive(Clone, Debug, PartialEq)]
pub struct Message {
    /// Place of message.
    pub place: Option<Box<Place>>,
    /// Reason for message (should use markdown).
    pub reason: String,
    /// Category of message.
    pub rule_id: Box<String>,
    /// Namespace of message.
    pub source: Box<String>,
}

/// Somewhere.
#[derive(Clone, Debug, PartialEq)]
pub enum Place {
    /// Between two points.
    Position(Position),
    /// At a point.
    Point(Point),
}

impl Place {
    /// The text of a place: `line:column-line:column` for a position,
    /// `line:column` for a point.
    pub open spec fn spec_string(self) -> Seq<char> {
        match self {
            Place::Position(position) => decimal(position.start.line as nat) + ":"@ + decimal(
                position.start.column as nat,
            ) + "-"@ + decimal(position.end.line as nat) + ":"@ + decimal(
                position.end.column as nat,
            ),
            Place::Point(point) => decimal(point.line as nat) + ":"@ + decimal(
                point.column as nat,
            ),
        }
    }

    /// Appends the text of the place.
    pub fn push_string(&self, s: &mut String)
        ensures
            final(s)@ == old(s)@ + self.spec_string(),
    {
        match self {
            Place::Position(position) => {
                push_decimal(s, position.start.line);
                s.append(":");
                push_decimal(s, position.start.column);
                s.append("-");
                push_decimal(s, position.end.line);
                s.append(":");
                push_decimal(s, position.end.column);
            },
            Place::Point(point) => {
                push_decimal(s, point.line);
                s.append(":");
                push_decimal(s, point.column);
            },
        }
    }

    /// The text of the place, as it is displayed.
    pub fn to_string(&self) -> (r: String)
        ensures
            r@ == self.spec_string(),
    {
        let mut s = String::new();
        self.push_string(&mut s);
        assert(s@ =~= self.spec_string());
        s
    }
}

impl Message {
    /// The text of a message: the place and `: ` when there is one, then
    /// the reason, and the source and rule in parentheses.
    pub open spec fn spec_string(self) -> Seq<char> {
        let prefix = match self.place {
            Some(place) => place.spec_string() + ": "@,
            None => Seq::empty(),
        };
        prefix + self.reason@ + " ("@ + self.source@ + ":"@ + self.rule_id@ + ")"@
    }

    /// The text of the message, as it is displayed.
    pub fn to_string(&self) -> (r: String)
        ensures
            r@ == self.spec_string(),
    {
        let mut s = String::new();
        if let Some(place) = &self.place {
            place.push_string(&mut s);
            s.append(": ");
        }
        s.append(self.reason.as_str());
        s.append(" (");
        s.append(self.source.as_str());
        s.append(":");
        s.append(self.rule_id.as_str());
        s.append(")");
        assert(s@ =~= self.spec_string());
        s
    }
}

} // verus!
