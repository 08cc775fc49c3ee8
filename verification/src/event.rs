//! Events: what an organizer says of an event, and the collection that is
//! asked for it.
//!
//! Creating the collection is the work of a metadata program. This module
//! computes what that program is asked: the collection's name and address, who
//! pays and who may update it, and the plugin with the attributes that describe
//! the event.

use crate::address::Address;
use vstd::prelude::*;
use vstd::string::StringExecFns;

verus! {

/// What an organizer says of an event.
#[derive(Clone, Debug, PartialEq, Eq)]
pub struct CreateEventArgs {
    pub name: String,
    pub category: String,
    pub uri: String,
    pub city: String,
    pub venue: String,
    pub organizer: String,
    pub date: String,
    pub time: String,
    pub capacity: u32,
    pub is_ticket_transferable: bool,
}

/// The accounts that the creation of an event names.
#[derive(Clone, Copy, Debug, PartialEq, Eq)]
pub struct CreateEvent {
    pub signer: Address,
    pub payer: Address,
    /// The manager that acts for the organizer and may update the collection.
    pub manager: Address,
    /// The address at which the collection comes to be.
    pub event: Address,
    pub system_program: Address,
    pub mpl_core_program: Address,
    pub organizer: Address,
}

/// One attribute of a collection.
#[derive(Clone, Debug, PartialEq, Eq)]
pub struct Attribute {
    pub key: String,
    pub value: String,
}

impl View for Attribute {
    type V = (Seq<char>, Seq<char>);

    open spec fn view(&self) -> (Seq<char>, Seq<char>) {
        (self.key@, self.value@)
    }
}

/// The attributes that a collection carries.
#[derive(Clone, Debug, PartialEq, Eq)]
pub struct Attributes {
    pub attribute_list: Vec<Attribute>,
}

impl View for Attributes {
    type V = Seq<(Seq<char>, Seq<char>)>;

    open spec fn view(&self) -> Seq<(Seq<char>, Seq<char>)> {
        self.attribute_list@.map_values(|a: Attribute| a@)
    }
}

/// What a collection is extended by.
#[derive(Clone, Debug, PartialEq, Eq)]
pub enum Plugin {
    Attributes(Attributes),
}

/// Who may change a plugin of a collection.
#[derive(Clone, Copy, Debug, PartialEq, Eq)]
pub enum PluginAuthority {
    Nobody,
    Owner,
    UpdateAuthority,
    Address { address: Address },
}

/// A plugin with the authority over it.
#[derive(Clone, Debug, PartialEq, Eq)]
pub struct PluginAuthorityPair {
    pub plugin: Plugin,
    pub authority: Option<PluginAuthority>,
}

/// The collection that is asked for an event.
#[derive(Clone, Debug, PartialEq, Eq)]
pub struct CollectionRequest {
    /// The program that is asked.
    pub program: Address,
    pub collection: Address,
    pub update_authority: Address,
    pub payer: Address,
    pub system_program: Address,
    pub name: String,
    pub uri: String,
    pub plugins: Vec<PluginAuthorityPair>,
}

/// The decimal digit for a number below ten.
pub open spec fn digit(d: nat) -> char {
    if d == 0 {
        '0'
    } else if d == 1 {
        '1'
    } else if d == 2 {
        '2'
    } else if d == 3 {
        '3'
    } else if d == 4 {
        '4'
    } else if d == 5 {
        '5'
    } else if d == 6 {
        '6'
    } else if d == 7 {
        '7'
    } else if d == 8 {
        '8'
    } else {
        '9'
    }
}

/// A number written in decimal, without leading zeros.
pub open spec fn decimal(n: nat) -> Seq<char>
    decreases n,
{
    if n < 10 {
        seq![digit(n)]
    } else {
        decimal(n / 10).push(digit(n % 10))
    }
}

/// A truth value written out.
pub open spec fn truth(b: bool) -> Seq<char> {
    if b {
        "true"@
    } else {
        "false"@
    }
}

/// The attributes that describe an event, in the order in which they are
/// written to the collection.
pub open spec fn event_attributes(args: CreateEventArgs) -> Seq<(Seq<char>, Seq<char>)> {
    seq![
        ("Category"@, args.category@),
        ("City"@, args.city@),
        ("Venue"@, args.venue@),
        ("Artist"@, args.organizer@),
        ("Date"@, args.date@),
        ("Time"@, args.time@),
        ("Capacity"@, decimal(args.capacity as nat)),
        ("IsTicketTransferable"@, truth(args.is_ticket_transferable)),
    ]
}

fn digit_text(d: u32) -> (text: &'static str)
    requires
        d < 10,
    ensures
        text@ == seq![digit(d as nat)],
{
    proof {
        reveal_strlit("0");
        reveal_strlit("1");
        reveal_strlit("2");
        reveal_strlit("3");
        reveal_strlit("4");
        reveal_strlit("5");
        reveal_strlit("6");
        reveal_strlit("7");
        reveal_strlit("8");
        reveal_strlit("9");
    }
    let text: &'static str = if d == 0 {
        "0"
    } else if d == 1 {
        "1"
    } else if d == 2 {
        "2"
    } else if d == 3 {
        "3"
    } else if d == 4 {
        "4"
    } else if d == 5 {
        "5"
    } else if d == 6 {
        "6"
    } else if d == 7 {
        "7"
    } else if d == 8 {
        "8"
    } else {
        "9"
    };
    assert(text@ =~= seq![digit(d as nat)]);
    text
}

/// Writes a number in decimal.
pub fn decimal_text(n: u32) -> (text: String)
    ensures
        text@ == decimal(n as nat),
    decreases n,
{
    if n < 10 {
        String::from_str(digit_text(n))
    } else {
        let mut text: String = decimal_text(n / 10);
        text.append(digit_text(n % 10));
        assert(text@ =~= decimal(n as nat));
        text
    }
}

/// Writes a truth value out.
pub fn truth_text(b: bool) -> (text: String)
    ensures
        text@ == truth(b),
{
    if b {
        String::from_str("true")
    } else {
        String::from_str("false")
    }
}

fn attribute(key: &str, value: String) -> (r: Attribute)
    ensures
        r@ == (key@, value@),
{
    Attribute { key: String::from_str(key), value }
}

impl CreateEvent {
    /// What the metadata program is asked for the event that `args`
    /// describes: a collection at the event's address, paid for by the payer,
    /// to be updated by the manager, with one plugin, which carries the
    /// event's attributes and is changed on the word of the update authority.
    pub fn create_event(&self, args: CreateEventArgs) -> (request: CollectionRequest)
        ensures
            request.program == self.mpl_core_program,
            request.collection == self.event,
            request.update_authority == self.manager,
            request.payer == self.payer,
            request.system_program == self.system_program,
            request.name == args.name,
            request.uri == args.uri,
            request.plugins@.len() == 1,
            request.plugins@[0].authority == Some(PluginAuthority::UpdateAuthority),
            request.plugins@[0].plugin matches Plugin::Attributes(attributes) && attributes@
                == event_attributes(args),
    {
        let ghost described = event_attributes(args);
        let mut attribute_list: Vec<Attribute> = Vec::new();
        attribute_list.push(attribute("Category", args.category));
        attribute_list.push(attribute("City", args.city));
        attribute_list.push(attribute("Venue", args.venue));
        attribute_list.push(attribute("Artist", args.organizer));
        attribute_list.push(attribute("Date", args.date));
        attribute_list.push(attribute("Time", args.time));
        attribute_list.push(attribute("Capacity", decimal_text(args.capacity)));
        attribute_list.push(
            attribute("IsTicketTransferable", truth_text(args.is_ticket_transferable)),
        );
        let attributes = Attributes { attribute_list };
        assert(attributes@ =~= described);
        let mut plugins: Vec<PluginAuthorityPair> = Vec::new();
        plugins.push(
            PluginAuthorityPair {
                plugin: Plugin::Attributes(attributes),
                authority: Some(PluginAuthority::UpdateAuthority),
            },
        );
        CollectionRequest {
            program: self.mpl_core_program,
            collection: self.event,
            update_authority: self.manager,
            payer: self.payer,
            system_program: self.system_program,
            name: args.name,
            uri: args.uri,
            plugins,
        }
    }
}

} // verus!
