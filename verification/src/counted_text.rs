//! A small interface with a counting provider, used to exercise the
//! generated forwarding code.

use vstd::prelude::*;

use vstd::string::StringSliceAdditionalSpecFns;

use crate::text::{dec_seq, dec_string};

verus! {

/// A text channel with a count and a name.  The response to a message is
/// `recv({name}) {id} {len}: {text}\n`, where `id` counts the messages
/// sent, this one included, and `len` is the byte length of the text.
pub trait CountedText {
    /// Send the text, returning the response.
    fn send(&mut self, text: &str) -> String;
}

/// A provider of [`CountedText`].
#[derive(Debug)]
pub struct CountedTextProvider {
    name: String,
    id: u32,
}

impl CountedTextProvider {
    /// The provider's name.
    pub closed spec fn name_view(&self) -> Seq<char> {
        self.name@
    }

    /// How many messages were sent so far.
    pub closed spec fn id_view(&self) -> u32 {
        self.id
    }

    /// Create a provider counting from zero.
    pub fn new(name: &str) -> (r: Self)
        ensures
            r.name_view() == name@,
            r.id_view() == 0,
    {
        CountedTextProvider { name: name.to_owned(), id: 0 }
    }

    /// Send the text: count the message and format the response from the
    /// name, the new count, the text's byte length and the text itself.
    /// The count wraps at the integer's end.
    pub fn send(&mut self, text: &str) -> (r: String)
        ensures
            final(self).name_view() == old(self).name_view(),
            final(self).id_view() == old(self).id_view().wrapping_add(1),
            r@ == "recv("@ + old(self).name_view() + ") "@ + dec_seq(
                final(self).id_view() as nat,
            ) + " "@ + dec_seq((text.spec_bytes().len() as usize) as nat) + ": "@ + text@
                + "\n"@,
    {
        self.id = self.id.wrapping_add(1);
        let mut out = "recv(".to_owned();
        out.append(self.name.as_str());
        out.append(") ");
        let id_text = dec_string(self.id as u64);
        out.append(id_text.as_str());
        out.append(" ");
        let len_text = dec_string(text.len() as u64);
        out.append(len_text.as_str());
        out.append(": ");
        out.append(text);
        out.append("\n");
        out
    }
}

impl CountedText for CountedTextProvider {
    fn send(&mut self, text: &str) -> String {
        self.send(text)
    }
}

} // verus!
