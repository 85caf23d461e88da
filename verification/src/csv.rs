//! Rows of comma-separated values.

use vstd::prelude::*;

use crate::text::{decimal, joined, push_decimal, push_signed_decimal, push_truth, signed_decimal, truth};

verus! {

/// A row under construction: its text, and the values in it.
pub struct Row {
    text: String,
    values: Ghost<Seq<Seq<char>>>,
}

/// One more value goes behind a comma.
proof fn joined_with_one_more(values: Seq<Seq<char>>, value: Seq<char>)
    requires
        values.len() > 0,
    ensures
        joined(values.push(value), ',') == joined(values, ',').push(',') + value,
{
    assert(values.push(value).drop_last() =~= values);
}

impl Row {
    /// The values in the row.
    pub closed spec fn values(self) -> Seq<Seq<char>> {
        self.values@
    }

    /// There is a value, and the text is the values with commas between them.
    pub closed spec fn wf(self) -> bool {
        self.values@.len() > 0 && self.text@ == joined(self.values@, ',')
    }

    /// A row with a number as its first value.
    pub fn start(value: u128) -> (row: Self)
        ensures
            row.wf(),
            row.values() == seq![decimal(value as nat)],
    {
        let mut text = String::new();
        push_decimal(&mut text, value);
        assert(text@ =~= decimal(value as nat));
        let ghost values = seq![decimal(value as nat)];
        Row { text, values: Ghost(values) }
    }

    /// Adds a number.
    pub fn number(self, value: u128) -> (row: Self)
        requires
            self.wf(),
        ensures
            row.wf(),
            row.values() == self.values().push(decimal(value as nat)),
    {
        let ghost added = decimal(value as nat);
        let mut text = self.text;
        text.push(',');
        push_decimal(&mut text, value);
        proof {
            joined_with_one_more(self.values@, added);
        }
        Row { text, values: Ghost(self.values@.push(added)) }
    }

    /// Adds a signed number.
    pub fn signed(self, value: i32) -> (row: Self)
        requires
            self.wf(),
        ensures
            row.wf(),
            row.values() == self.values().push(signed_decimal(value as int)),
    {
        let ghost added = signed_decimal(value as int);
        let mut text = self.text;
        text.push(',');
        push_signed_decimal(&mut text, value);
        proof {
            joined_with_one_more(self.values@, added);
        }
        Row { text, values: Ghost(self.values@.push(added)) }
    }

    /// Adds a truth value.
    pub fn boolean(self, value: bool) -> (row: Self)
        requires
            self.wf(),
        ensures
            row.wf(),
            row.values() == self.values().push(truth(value)),
    {
        let ghost added = truth(value);
        let mut text = self.text;
        text.push(',');
        push_truth(&mut text, value);
        proof {
            joined_with_one_more(self.values@, added);
        }
        Row { text, values: Ghost(self.values@.push(added)) }
    }

    /// Adds a text.
    pub fn text(self, value: &str) -> (row: Self)
        requires
            self.wf(),
        ensures
            row.wf(),
            row.values() == self.values().push(value@),
    {
        let mut text = self.text;
        text.push(',');
        text.append(value);
        proof {
            joined_with_one_more(self.values@, value@);
        }
        Row { text, values: Ghost(self.values@.push(value@)) }
    }

    /// Adds an empty value.
    pub fn empty(self) -> (row: Self)
        requires
            self.wf(),
        ensures
            row.wf(),
            row.values() == self.values().push(seq![]),
    {
        let ghost added = Seq::<char>::empty();
        let mut text = self.text;
        text.push(',');
        proof {
            joined_with_one_more(self.values@, added);
            assert(text@ =~= joined(self.values@, ',').push(',') + added);
        }
        Row { text, values: Ghost(self.values@.push(added)) }
    }

    /// The text of the row.
    pub fn finish(self) -> (text: String)
        requires
            self.wf(),
        ensures
            text@ == joined(self.values(), ','),
    {
        self.text
    }
}

} // verus!
