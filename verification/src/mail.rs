//! The mailbox: one batch of mail, decoded and keyed by variable name.

use vstd::prelude::*;
use vstd::hash_map::StringHashMap;
use crate::message::{decode_envelope, decoded, DecodeFault, Envelope, EnvelopeView, MessageValue, MoosMessageData};

verus! {

/// A mapping from variable name to typed value, built afresh for every mail
/// delivery. A name occurs once; inserting under a name that is present
/// replaces its value.
pub struct Mailbox {
    map: StringHashMap<MoosMessageData>,
}

impl View for Mailbox {
    type V = Map<Seq<char>, MessageValue>;

    closed spec fn view(&self) -> Map<Seq<char>, MessageValue> {
        self.map@.map_values(|value: MoosMessageData| value@)
    }
}

impl Mailbox {
    /// An empty mailbox.
    pub fn new() -> (mailbox: Mailbox)
        ensures
            mailbox@ == Map::<Seq<char>, MessageValue>::empty(),
    {
        let mailbox = Mailbox { map: StringHashMap::new() };
        assert(mailbox@ =~= Map::<Seq<char>, MessageValue>::empty());
        mailbox
    }

    /// Puts `value` under `name`, replacing what was there.
    pub fn insert(&mut self, name: String, value: MoosMessageData)
        ensures
            final(self)@ == old(self)@.insert(name@, value@),
    {
        self.map.insert(name, value);
        assert(self@ =~= old(self)@.insert(name@, value@));
    }

    /// The value under `name`, if there is one.
    pub fn get(&self, name: &str) -> (value: Option<&MoosMessageData>)
        ensures
            match value {
                Some(v) => self@.contains_key(name@) && v@ == self@[name@],
                None => !self@.contains_key(name@),
            },
    {
        self.map.get(name)
    }

    /// Whether a value stands under `name`.
    pub fn contains_key(&self, name: &str) -> (present: bool)
        ensures
            present == self@.contains_key(name@),
    {
        self.map.contains_key(name)
    }

    /// The number of names in the mailbox.
    pub fn len(&self) -> (n: usize)
        ensures
            n == self@.len(),
    {
        assert(self@.dom() =~= self.map@.dom());
        self.map.len()
    }

    /// Whether the mailbox holds no name.
    pub fn is_empty(&self) -> (empty: bool)
        ensures
            empty == (self@ == Map::<Seq<char>, MessageValue>::empty()),
    {
        assert(self@.dom() =~= self.map@.dom());
        let empty = self.map.is_empty();
        assert(empty ==> self@ =~= Map::<Seq<char>, MessageValue>::empty());
        empty
    }
}

/// The envelopes of a batch as contracts speak of them.
pub open spec fn views(mail: Seq<Envelope>) -> Seq<EnvelopeView> {
    mail.map_values(|e: Envelope| e@)
}

/// Every envelope of the batch decodes.
pub open spec fn all_decodable(envelopes: Seq<EnvelopeView>) -> bool {
    forall|i: int| 0 <= i < envelopes.len() ==> (#[trigger] decoded(envelopes[i])) is Ok
}

/// The envelope at `i` decodes and carries the variable `name`.
pub open spec fn names(envelopes: Seq<EnvelopeView>, i: int, name: Seq<char>) -> bool {
    &&& 0 <= i < envelopes.len()
    &&& decoded(envelopes[i]) matches Ok(entry)
    &&& entry.0 == name
}

/// `fault` is the first fault of the batch: the envelope at its index does
/// not decode, for the reason it gives, and every envelope before it does.
pub open spec fn is_first_fault(envelopes: Seq<EnvelopeView>, fault: DecodeFault) -> bool {
    &&& fault.index < envelopes.len()
    &&& decoded(envelopes[fault.index as int]) == Err::<(Seq<char>, MessageValue), _>(fault.kind)
    &&& all_decodable(envelopes.take(fault.index as int))
}

/// The mailbox that a batch fills: its envelopes inserted in order of
/// arrival, each under its name.
pub open spec fn mailbox_of(envelopes: Seq<EnvelopeView>) -> Map<Seq<char>, MessageValue>
    decreases envelopes.len(),
{
    if envelopes.len() == 0 {
        Map::empty()
    } else {
        let earlier = mailbox_of(envelopes.drop_last());
        match decoded(envelopes.last()) {
            Ok(entry) => earlier.insert(entry.0, entry.1),
            Err(_) => earlier,
        }
    }
}

/// The names of a mailbox are exactly the names that occur in the batch.
pub proof fn lemma_mailbox_names(envelopes: Seq<EnvelopeView>, name: Seq<char>)
    ensures
        mailbox_of(envelopes).contains_key(name) <==> exists|i: int| names(envelopes, i, name),
    decreases envelopes.len(),
{
    if envelopes.len() > 0 {
        let rest = envelopes.drop_last();
        let last: int = envelopes.len() - 1;
        lemma_mailbox_names(rest, name);
        if mailbox_of(envelopes).contains_key(name) {
            if names(envelopes, last, name) {
            } else {
                assert(mailbox_of(rest).contains_key(name));
                let i: int = choose|i: int| names(rest, i, name);
                assert(rest[i] == envelopes[i]);
                assert(names(envelopes, i, name));
            }
        }
        if exists|i: int| names(envelopes, i, name) {
            let i: int = choose|i: int| names(envelopes, i, name);
            if i < last {
                assert(rest[i] == envelopes[i]);
                assert(names(rest, i, name));
            }
        }
    }
}

/// Where a name occurs more than once in a batch, the last envelope wins:
/// the mailbox holds, under the name of the envelope at `i`, that envelope's
/// value, provided no later envelope carries the same name.
pub proof fn lemma_mailbox_last_wins(envelopes: Seq<EnvelopeView>, i: int)
    requires
        0 <= i < envelopes.len(),
        decoded(envelopes[i]) is Ok,
        forall|j: int| i < j < envelopes.len() ==> !names(envelopes, j, decoded(envelopes[i])->Ok_0.0),
    ensures
        mailbox_of(envelopes).contains_key(decoded(envelopes[i])->Ok_0.0),
        mailbox_of(envelopes)[decoded(envelopes[i])->Ok_0.0] == decoded(envelopes[i])->Ok_0.1,
    decreases envelopes.len(),
{
    let last: int = envelopes.len() - 1;
    let name = decoded(envelopes[i])->Ok_0.0;
    if i < last {
        let rest = envelopes.drop_last();
        assert(rest[i] == envelopes[i]);
        assert forall|j: int| i < j < rest.len() implies !names(rest, j, name) by {
            assert(rest[j] == envelopes[j]);
            assert(!names(envelopes, j, name));
        }
        lemma_mailbox_last_wins(rest, i);
        assert(!names(envelopes, last, name));
    }
}

/// Decodes one batch of mail into a fresh mailbox. The envelopes are taken in
/// order, so that of two with one name the later one stays. The batch is
/// decoded as a whole: the first envelope that does not decode is reported,
/// and no mailbox is made.
pub fn decode_mail(mail: &[Envelope]) -> (batch: Result<Mailbox, DecodeFault>)
    ensures
        match batch {
            Ok(mailbox) => all_decodable(views(mail@)) && mailbox@ == mailbox_of(views(mail@)),
            Err(fault) => is_first_fault(views(mail@), fault),
        },
        mail@.len() == 0 ==> batch is Ok && batch->Ok_0@ == Map::<Seq<char>, MessageValue>::empty(),
{
    let ghost envelopes = views(mail@);
    let mut mailbox = Mailbox::new();
    let mut i: usize = 0;
    while i < mail.len()
        invariant
            i <= mail.len(),
            envelopes == views(mail@),
            all_decodable(envelopes.take(i as int)),
            mailbox@ == mailbox_of(envelopes.take(i as int)),
        decreases mail.len() - i,
    {
        assert(envelopes[i as int] == mail@[i as int]@);
        match decode_envelope(&mail[i]) {
            Ok((name, value)) => {
                mailbox.insert(name, value);
            },
            Err(kind) => {
                return Err(DecodeFault { index: i, kind });
            },
        }
        proof {
            let longer = envelopes.take(i + 1);
            assert(longer.drop_last() =~= envelopes.take(i as int));
            assert(longer.last() == envelopes[i as int]);
            assert forall|j: int| 0 <= j < longer.len() implies (#[trigger] decoded(longer[j])) is Ok by {
                if j < i {
                    assert(envelopes.take(i as int)[j] == longer[j]);
                }
            }
        }
        i += 1;
    }
    assert(envelopes.take(i as int) =~= envelopes);
    Ok(mailbox)
}

} // verus!
