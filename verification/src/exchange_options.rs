//! The configured exchanges: the durable form read from and written to the
//! configuration file, and the in-session record the engine and the views
//! work on.

use vstd::prelude::*;

use crate::enums::ExchangeTypeSer;
use crate::enums::SelectedState;
use crate::strutil::bool_str;
use crate::strutil::spec_bool_str;

verus! {

/// One exchange as it stands in the configuration file. Optional fields may
/// be absent there; absence reads as the empty value.
pub struct ExchangeOptionsSer {
    pub exchange_name: String,
    pub exchange_type: ExchangeTypeSer,
    pub queue_routing_key: Option<String>,
    pub alias: Option<String>,
    pub pretty: Option<bool>,
    pub log_file: Option<String>,
    pub publish_file: Option<String>,
}

/// One exchange during a session: the durable options plus the transient
/// identifier and selection state.
///
/// The identifier is assigned once when the exchange list is loaded and never
/// reused; the selection state always starts `Unselected`.
pub struct ExchangeOptions {
    pub id: u64,
    pub exchange_name: String,
    pub exchange_type: ExchangeTypeSer,
    pub queue_routing_key: String,
    pub alias: String,
    pub pretty: bool,
    pub log_file: String,
    pub publish_file: String,
    pub selected_state: SelectedState,
}

impl Clone for ExchangeOptions {
    fn clone(&self) -> (r: Self)
        ensures
            r == *self,
    {
        ExchangeOptions {
            id: self.id,
            exchange_name: self.exchange_name.clone(),
            exchange_type: self.exchange_type,
            queue_routing_key: self.queue_routing_key.clone(),
            alias: self.alias.clone(),
            pretty: self.pretty,
            log_file: self.log_file.clone(),
            publish_file: self.publish_file.clone(),
            selected_state: self.selected_state,
        }
    }
}

impl Default for ExchangeOptions {
    fn default() -> (r: Self)
        ensures
            r.id == 0,
            r.exchange_name@ == Seq::<char>::empty(),
            r.exchange_type == ExchangeTypeSer::Direct,
            r.queue_routing_key@ == Seq::<char>::empty(),
            r.alias@ == Seq::<char>::empty(),
            r.pretty == false,
            r.log_file@ == Seq::<char>::empty(),
            r.publish_file@ == Seq::<char>::empty(),
            r.selected_state == SelectedState::Unselected,
    {
        ExchangeOptions {
            id: 0,
            exchange_name: String::new(),
            exchange_type: ExchangeTypeSer::Direct,
            queue_routing_key: String::new(),
            alias: String::new(),
            pretty: false,
            log_file: String::new(),
            publish_file: String::new(),
            selected_state: SelectedState::Unselected,
        }
    }
}

/// The view an `Option<String>` reads as: its text when present, empty
/// otherwise.
pub open spec fn opt_text(o: Option<String>) -> Seq<char> {
    match o {
        Some(s) => s@,
        None => Seq::empty(),
    }
}

/// The durable form of a non-empty text: the text itself; `None` for the
/// empty text.
pub open spec fn text_opt(s: Seq<char>) -> Option<Seq<char>> {
    if s.len() > 0 {
        Some(s)
    } else {
        None
    }
}

/// The view of an optional text field as written back to the file.
pub open spec fn opt_view(o: Option<String>) -> Option<Seq<char>> {
    match o {
        Some(s) => Some(s@),
        None => None,
    }
}

fn option_or_empty(o: Option<String>) -> (r: String)
    ensures
        r@ == opt_text(o),
{
    match o {
        Some(s) => s,
        None => String::new(),
    }
}

fn some_if_nonempty(s: &String) -> (r: Option<String>)
    ensures
        opt_view(r) == text_opt(s@),
{
    if s.as_str().unicode_len() > 0 {
        Some(s.clone())
    } else {
        None
    }
}

impl ExchangeOptionsSer {
    /// How a durable record relates to the session record it was written
    /// from: the name and kind carried over, every empty text written as
    /// absent, the pretty flag always written.
    pub open spec fn matches_saved(&self, item: ExchangeOptions) -> bool {
        &&& self.exchange_name@ == item.exchange_name@
        &&& self.exchange_type == item.exchange_type
        &&& opt_view(self.queue_routing_key) == text_opt(item.queue_routing_key@)
        &&& opt_view(self.alias) == text_opt(item.alias@)
        &&& self.pretty == Some(item.pretty)
        &&& opt_view(self.log_file) == text_opt(item.log_file@)
        &&& opt_view(self.publish_file) == text_opt(item.publish_file@)
    }
}

impl ExchangeOptions {
    /// How a session record relates to the durable record it was read from:
    /// the given identifier, absent optional fields read as empty values,
    /// the selection state reset to `Unselected`.
    pub open spec fn spec_from_ser(&self, ser: ExchangeOptionsSer, id: u64) -> bool {
        &&& self.id == id
        &&& self.exchange_name@ == ser.exchange_name@
        &&& self.exchange_type == ser.exchange_type
        &&& self.queue_routing_key@ == opt_text(ser.queue_routing_key)
        &&& self.alias@ == opt_text(ser.alias)
        &&& self.pretty == (ser.pretty matches Some(true))
        &&& self.log_file@ == opt_text(ser.log_file)
        &&& self.publish_file@ == opt_text(ser.publish_file)
        &&& self.selected_state == SelectedState::Unselected
    }

    /// The session record for one exchange read from the file: absent
    /// optional fields become empty values, the identifier is the given one,
    /// and the selection state is reset to `Unselected`.
    pub fn from_ser(ser: ExchangeOptionsSer, id: u64) -> (r: ExchangeOptions)
        ensures
            r.spec_from_ser(ser, id),
            r.id == id,
            r.exchange_name@ == ser.exchange_name@,
            r.exchange_type == ser.exchange_type,
            r.queue_routing_key@ == opt_text(ser.queue_routing_key),
            r.alias@ == opt_text(ser.alias),
            r.pretty == (ser.pretty matches Some(true)),
            r.log_file@ == opt_text(ser.log_file),
            r.publish_file@ == opt_text(ser.publish_file),
            r.selected_state == SelectedState::Unselected,
    {
        ExchangeOptions {
            id,
            exchange_name: ser.exchange_name,
            exchange_type: ser.exchange_type,
            queue_routing_key: option_or_empty(ser.queue_routing_key),
            alias: option_or_empty(ser.alias),
            pretty: match ser.pretty {
                Some(b) => b,
                None => false,
            },
            log_file: option_or_empty(ser.log_file),
            publish_file: option_or_empty(ser.publish_file),
            selected_state: SelectedState::Unselected,
        }
    }

    /// The durable form of this exchange: empty optional fields are written
    /// as absent, the `pretty` flag is always written out, and the transient
    /// identifier and selection state are not written at all.
    pub fn to_ser(&self) -> (r: ExchangeOptionsSer)
        ensures
            r.matches_saved(*self),
            r.exchange_name@ == self.exchange_name@,
            r.exchange_type == self.exchange_type,
            opt_view(r.queue_routing_key) == text_opt(self.queue_routing_key@),
            opt_view(r.alias) == text_opt(self.alias@),
            r.pretty == Some(self.pretty),
            opt_view(r.log_file) == text_opt(self.log_file@),
            opt_view(r.publish_file) == text_opt(self.publish_file@),
    {
        ExchangeOptionsSer {
            exchange_name: self.exchange_name.clone(),
            exchange_type: self.exchange_type,
            queue_routing_key: some_if_nonempty(&self.queue_routing_key),
            alias: some_if_nonempty(&self.alias),
            pretty: Some(self.pretty),
            log_file: some_if_nonempty(&self.log_file),
            publish_file: some_if_nonempty(&self.publish_file),
        }
    }

    /// The editable fields as the options table shows them: one
    /// `(field name, field value)` row per editable field, in the fixed
    /// order the editor navigates them.
    pub fn fields(&self) -> (r: Vec<(String, String)>)
        ensures
            r@.len() == 7,
            r@[0].0@ == "exchange_name"@ && r@[0].1@ == self.exchange_name@,
            r@[1].0@ == "exchange_type"@ && r@[1].1@ == self.exchange_type.spec_name(),
            r@[2].0@ == "queue_routing_key"@ && r@[2].1@ == self.queue_routing_key@,
            r@[3].0@ == "alias"@ && r@[3].1@ == self.alias@,
            r@[4].0@ == "pretty"@ && r@[4].1@ == spec_bool_str(self.pretty),
            r@[5].0@ == "log_file"@ && r@[5].1@ == self.log_file@,
            r@[6].0@ == "publish_file"@ && r@[6].1@ == self.publish_file@,
    {
        let mut r: Vec<(String, String)> = Vec::new();
        r.push(("exchange_name".to_owned(), self.exchange_name.clone()));
        r.push(("exchange_type".to_owned(), self.exchange_type.name()));
        r.push(("queue_routing_key".to_owned(), self.queue_routing_key.clone()));
        r.push(("alias".to_owned(), self.alias.clone()));
        r.push(("pretty".to_owned(), bool_str(self.pretty)));
        r.push(("log_file".to_owned(), self.log_file.clone()));
        r.push(("publish_file".to_owned(), self.publish_file.clone()));
        r
    }

    /// The name the exchange is shown and filtered under: the alias when one
    /// is set, the exchange name otherwise.
    pub open spec fn spec_display_name(&self) -> Seq<char> {
        if self.alias@.len() > 0 {
            self.alias@
        } else {
            self.exchange_name@
        }
    }

    pub fn display_name(&self) -> (r: String)
        ensures
            r@ == self.spec_display_name(),
    {
        if self.alias.as_str().unicode_len() > 0 {
            self.alias.clone()
        } else {
            self.exchange_name.clone()
        }
    }
}

} // verus!
