use crate::error::Violation;
use crate::json::JsonValue;
use crate::model::{AsyncApiSpec, Channel, Message, MessageOrRef};
use crate::name_map::has_name;
use crate::validation::rules::{
    all_operations_violation, bindings_violation, channel_violation, channels_violation,
    component_messages, components_violation, first_violation,
    header_violation, message_violation, messages_violation, protocols_violation,
    seen_after_channels, seen_after_components, seen_after_messages,
    server_ref_text, server_refs, server_refs_violation, servers_of,
};
use crate::validation::validator::{
    lemma_channels_found, lemma_components_found, lemma_messages_found, lemma_server_refs_found,
};
use vstd::prelude::*;

verus! {

/// The message id of an inline message that has one.
pub open spec fn inline_id(message: MessageOrRef) -> Option<Seq<char>> {
    match message {
        MessageOrRef::Message(inline) => match inline.message_id {
            Some(id) => Some(id@),
            None => None,
        },
        MessageOrRef::Ref(_) => None,
    }
}

/// The message ids of the first `n` messages of a channel, in order.
pub open spec fn message_ids(messages: Seq<(String, MessageOrRef)>, n: nat) -> Seq<Seq<char>>
    decreases n,
{
    if n == 0 {
        Seq::empty()
    } else {
        match inline_id(messages[n - 1].1) {
            Some(id) => message_ids(messages, (n - 1) as nat).push(id),
            None => message_ids(messages, (n - 1) as nat),
        }
    }
}

/// The message ids of the first `n` channels, in order.
pub open spec fn channel_ids(doc: AsyncApiSpec, n: nat) -> Seq<Seq<char>>
    decreases n,
{
    if n == 0 {
        Seq::empty()
    } else {
        channel_ids(doc, (n - 1) as nat) + message_ids(
            doc.channels@[n - 1].1.messages@,
            doc.channels@[n - 1].1.messages@.len(),
        )
    }
}

/// The message ids of the first `n` component messages, in order.
pub open spec fn component_ids(messages: Seq<(String, Message)>, n: nat) -> Seq<Seq<char>>
    decreases n,
{
    if n == 0 {
        Seq::empty()
    } else {
        match messages[n - 1].1.message_id {
            Some(id) => component_ids(messages, (n - 1) as nat).push(id@),
            None => component_ids(messages, (n - 1) as nat),
        }
    }
}

/// Every message id of the document: those of the channels' inline messages,
/// channel by channel, then those of the component messages.
pub open spec fn all_ids(doc: AsyncApiSpec) -> Seq<Seq<char>> {
    channel_ids(doc, doc.channels@.len()) + component_ids(
        component_messages(doc),
        component_messages(doc).len(),
    )
}

/// Whether a message of a channel, taken alone, is in order: an inline
/// message has a schema, a reference resolves.
pub open spec fn message_sound(
    doc: AsyncApiSpec,
    channel: Seq<char>,
    name: Seq<char>,
    message: MessageOrRef,
) -> bool {
    message_violation(doc, channel, name, message, Set::empty()) is None
}

/// Whether a channel, message ids apart, is in order: it has a message, the
/// document defines every server it lists, and each message is sound.
pub open spec fn channel_sound(doc: AsyncApiSpec, name: Seq<char>, channel: Channel) -> bool {
    &&& channel.messages@.len() > 0
    &&& forall|j: int|
        0 <= j < server_refs(channel).len() ==> has_name(
            servers_of(doc),
            (#[trigger] server_refs(channel)[j])@,
        )
    &&& forall|j: int|
        0 <= j < channel.messages@.len() ==> message_sound(
            doc,
            name,
            (#[trigger] channel.messages@[j]).0@,
            channel.messages@[j].1,
        )
}

/// Whether the document, message ids apart, keeps every rule.
pub open spec fn sound_apart_from_ids(doc: AsyncApiSpec) -> bool {
    &&& header_violation(doc) is None
    &&& doc.channels@.len() > 0
    &&& forall|i: int|
        0 <= i < doc.channels@.len() ==> channel_sound(
            doc,
            (#[trigger] doc.channels@[i]).0@,
            doc.channels@[i].1,
        )
    &&& all_operations_violation(doc) is None
    &&& protocols_violation(servers_of(doc), servers_of(doc).len()) is None
    &&& bindings_violation(doc, doc.channels@.len()) is None
    &&& forall|k: int|
        0 <= k < component_messages(doc).len() ==> (#[trigger] component_messages(
            doc,
        )[k]).1.payload.schema != JsonValue::Null
}

/// Whether the document keeps every rule: it is sound apart from message ids,
/// and no message id occurs twice.
pub open spec fn well_formed(doc: AsyncApiSpec) -> bool {
    sound_apart_from_ids(doc) && all_ids(doc).no_duplicates()
}

proof fn lemma_push_no_duplicates(s: Seq<Seq<char>>, x: Seq<char>)
    ensures
        s.push(x).no_duplicates() <==> (s.no_duplicates() && !s.contains(x)),
        s.push(x).to_set() == s.to_set().insert(x),
{
    let t = s.push(x);
    if s.no_duplicates() && !s.contains(x) {
        assert forall|i: int, j: int| 0 <= i < t.len() && 0 <= j < t.len() && i != j implies t[i]
            != t[j] by {
            if i < s.len() {
                assert(s.contains(t[i]));
            }
            if j < s.len() {
                assert(s.contains(t[j]));
            }
        }
    }
    if t.no_duplicates() {
        assert forall|i: int, j: int| 0 <= i < s.len() && 0 <= j < s.len() && i != j implies s[i]
            != s[j] by {
            assert(t[i] == s[i] && t[j] == s[j]);
        }
        if s.contains(x) {
            let i = choose|i: int| 0 <= i < s.len() && s[i] == x;
            assert(t[i] == x && t[s.len() as int] == x);
        }
    }
    assert forall|y: Seq<char>| t.to_set().contains(y) <==> s.to_set().insert(x).contains(y) by {
        if t.contains(y) {
            let i = choose|i: int| 0 <= i < t.len() && t[i] == y;
            if i < s.len() {
                assert(s[i] == y);
                assert(s.contains(y));
            }
        }
        if s.contains(y) {
            let i = choose|i: int| 0 <= i < s.len() && s[i] == y;
            assert(t[i] == y);
        }
        if y == x {
            assert(t[s.len() as int] == x);
        }
    }
    assert(t.to_set() =~= s.to_set().insert(x));
}

proof fn lemma_prefix_no_duplicates(a: Seq<Seq<char>>, b: Seq<Seq<char>>)
    requires
        (a + b).no_duplicates(),
    ensures
        a.no_duplicates(),
{
    assert forall|i: int, j: int| 0 <= i < a.len() && 0 <= j < a.len() && i != j implies a[i]
        != a[j] by {
        assert((a + b)[i] == a[i] && (a + b)[j] == a[j]);
    }
}

/// The scan of a channel's sound messages finds nothing where the ids are
/// fresh, and a duplicate id where they are not.
proof fn lemma_messages_scan(
    doc: AsyncApiSpec,
    channel: Seq<char>,
    messages: Seq<(String, MessageOrRef)>,
    before: Seq<Seq<char>>,
    n: nat,
)
    requires
        n <= messages.len(),
        forall|j: int|
            0 <= j < n ==> message_sound(doc, channel, (#[trigger] messages[j]).0@, messages[j].1),
    ensures
        seen_after_messages(messages, before.to_set(), n) == (before + message_ids(
            messages,
            n,
        )).to_set(),
        before.no_duplicates() ==> (messages_violation(doc, channel, messages, before.to_set(), n)
            is None <==> (before + message_ids(messages, n)).no_duplicates()),
        messages_violation(doc, channel, messages, before.to_set(), n) is Some
            ==> messages_violation(
            doc,
            channel,
            messages,
            before.to_set(),
            n,
        )->Some_0 is DuplicateMessageId,
    decreases n,
{
    if n == 0 {
        assert(before + message_ids(messages, 0) =~= before);
    } else {
        let m = (n - 1) as nat;
        lemma_messages_scan(doc, channel, messages, before, m);
        let prev = before + message_ids(messages, m);
        let entry = messages[n - 1];
        assert(message_sound(doc, channel, entry.0@, entry.1));
        match inline_id(entry.1) {
            Some(id) => {
                assert(before + message_ids(messages, n) =~= prev.push(id));
                lemma_push_no_duplicates(prev, id);
            },
            None => {
                assert(before + message_ids(messages, n) =~= prev);
            },
        }
        if before.no_duplicates() && !prev.no_duplicates() {
            if (before + message_ids(messages, n)).no_duplicates() {
                lemma_push_no_duplicates(prev, inline_id(entry.1)->Some_0);
            }
        }
    }
}

/// The scan of sound channels finds nothing where the ids are fresh, and a
/// duplicate id where they are not.
proof fn lemma_channels_scan(doc: AsyncApiSpec, n: nat)
    requires
        n <= doc.channels@.len(),
        forall|i: int|
            0 <= i < n ==> channel_sound(doc, (#[trigger] doc.channels@[i]).0@, doc.channels@[i].1),
    ensures
        seen_after_channels(doc, n) == channel_ids(doc, n).to_set(),
        channels_violation(doc, n) is None <==> channel_ids(doc, n).no_duplicates(),
        channels_violation(doc, n) is Some ==> channels_violation(doc, n)->Some_0
            is DuplicateMessageId,
    decreases n,
{
    if n == 0 {
        assert(channel_ids(doc, 0).to_set() =~= Set::<Seq<char>>::empty());
    } else {
        let m = (n - 1) as nat;
        lemma_channels_scan(doc, m);
        let entry = doc.channels@[n - 1];
        let before = channel_ids(doc, m);
        assert(channel_sound(doc, entry.0@, entry.1));
        lemma_server_refs_sound(doc, server_refs(entry.1), server_refs(entry.1).len());
        lemma_messages_scan(doc, entry.0@, entry.1.messages@, before, entry.1.messages@.len());
        if !before.no_duplicates() {
            if channel_ids(doc, n).no_duplicates() {
                lemma_prefix_no_duplicates(
                    before,
                    message_ids(entry.1.messages@, entry.1.messages@.len()),
                );
            }
        }
    }
}

/// Server names that the document defines raise nothing.
proof fn lemma_server_refs_sound(doc: AsyncApiSpec, refs: Seq<String>, n: nat)
    requires
        n <= refs.len(),
        forall|j: int| 0 <= j < n ==> has_name(servers_of(doc), (#[trigger] refs[j])@),
    ensures
        server_refs_violation(doc, refs, n) is None,
    decreases n,
{
    if n > 0 {
        lemma_server_refs_sound(doc, refs, (n - 1) as nat);
        assert(has_name(servers_of(doc), refs[n - 1]@));
    }
}

/// The scan of component messages with schemas finds nothing where the ids
/// are fresh, and a duplicate id where they are not.
proof fn lemma_components_scan(messages: Seq<(String, Message)>, before: Seq<Seq<char>>, n: nat)
    requires
        n <= messages.len(),
        forall|k: int| 0 <= k < n ==> (#[trigger] messages[k]).1.payload.schema != JsonValue::Null,
    ensures
        seen_after_components(messages, before.to_set(), n) == (before + component_ids(
            messages,
            n,
        )).to_set(),
        before.no_duplicates() ==> (components_violation(messages, before.to_set(), n) is None
            <==> (before + component_ids(messages, n)).no_duplicates()),
        components_violation(messages, before.to_set(), n) is Some ==> components_violation(
            messages,
            before.to_set(),
            n,
        )->Some_0 is DuplicateMessageId,
    decreases n,
{
    if n == 0 {
        assert(before + component_ids(messages, 0) =~= before);
    } else {
        let m = (n - 1) as nat;
        lemma_components_scan(messages, before, m);
        let prev = before + component_ids(messages, m);
        let entry = messages[n - 1];
        assert(entry.1.payload.schema != JsonValue::Null);
        match entry.1.message_id {
            Some(id) => {
                assert(before + component_ids(messages, n) =~= prev.push(id@));
                lemma_push_no_duplicates(prev, id@);
            },
            None => {
                assert(before + component_ids(messages, n) =~= prev);
            },
        }
        if before.no_duplicates() && !prev.no_duplicates() {
            if (before + component_ids(messages, n)).no_duplicates() {
                lemma_push_no_duplicates(prev, entry.1.message_id->Some_0@);
            }
        }
    }
}

/// A well-formed document is accepted: where version and info are in order,
/// there is a channel, every channel has a message, lists only defined
/// servers and holds only sound messages, operations, protocols and bindings
/// are in order, every component message has a schema, and no message id
/// occurs twice, validation finds no violation.
pub proof fn lemma_well_formed_accepted(doc: AsyncApiSpec)
    requires
        well_formed(doc),
    ensures
        first_violation(doc) is None,
{
    let n = doc.channels@.len();
    let ids = channel_ids(doc, n);
    let components = component_messages(doc);
    lemma_channels_scan(doc, n);
    lemma_prefix_no_duplicates(ids, component_ids(components, components.len()));
    lemma_components_scan(components, ids, components.len());
}

/// A channel in which the scan finds nothing is sound.
proof fn lemma_accepted_channel_sound(
    doc: AsyncApiSpec,
    name: Seq<char>,
    channel: Channel,
    seen: Set<Seq<char>>,
)
    requires
        channel_violation(doc, name, channel, seen) is None,
    ensures
        channel_sound(doc, name, channel),
{
    let refs = server_refs(channel);
    let messages = channel.messages@;
    assert forall|j: int| 0 <= j < refs.len() implies has_name(
        servers_of(doc),
        (#[trigger] refs[j])@,
    ) by {
        if server_refs_violation(doc, refs, (j + 1) as nat) is Some {
            lemma_server_refs_found(doc, refs, (j + 1) as nat, refs.len());
        }
    }
    assert forall|j: int| 0 <= j < messages.len() implies message_sound(
        doc,
        name,
        (#[trigger] messages[j]).0@,
        messages[j].1,
    ) by {
        if messages_violation(doc, name, messages, seen, (j + 1) as nat) is Some {
            lemma_messages_found(doc, name, messages, seen, (j + 1) as nat, messages.len());
        }
    }
}

/// An accepted document is well formed: where validation finds no violation,
/// the document is sound apart from message ids, and no message id occurs
/// twice.
pub proof fn lemma_accepted_well_formed(doc: AsyncApiSpec)
    requires
        first_violation(doc) is None,
    ensures
        well_formed(doc),
{
    let n = doc.channels@.len();
    let components = component_messages(doc);
    assert forall|i: int| 0 <= i < n implies channel_sound(
        doc,
        (#[trigger] doc.channels@[i]).0@,
        doc.channels@[i].1,
    ) by {
        if channels_violation(doc, (i + 1) as nat) is Some {
            lemma_channels_found(doc, (i + 1) as nat, n);
        }
        lemma_accepted_channel_sound(
            doc,
            doc.channels@[i].0@,
            doc.channels@[i].1,
            seen_after_channels(doc, i as nat),
        );
    }
    lemma_channels_scan(doc, n);
    let ids = channel_ids(doc, n);
    let seen = seen_after_channels(doc, n);
    assert forall|k: int| 0 <= k < components.len() implies (#[trigger] components[k]).1.payload.schema
        != JsonValue::Null by {
        if components_violation(components, seen, (k + 1) as nat) is Some {
            lemma_components_found(components, seen, (k + 1) as nat, components.len());
        }
    }
    lemma_components_scan(components, ids, components.len());
}

/// Validation accepts exactly the well-formed documents.
pub proof fn lemma_accepted_iff_well_formed(doc: AsyncApiSpec)
    ensures
        first_violation(doc) is None <==> well_formed(doc),
{
    if first_violation(doc) is None {
        lemma_accepted_well_formed(doc);
    }
    if well_formed(doc) {
        lemma_well_formed_accepted(doc);
    }
}

/// A document without channels is rejected, and it is rejected for having
/// none where its version and info are in order.
pub proof fn lemma_no_channels_rejected(doc: AsyncApiSpec)
    requires
        doc.channels@.len() == 0,
    ensures
        first_violation(doc) is Some,
        header_violation(doc) is None ==> first_violation(doc) == Some(Violation::EmptyChannels),
{
}

/// A document with a channel that has no message is rejected.
pub proof fn lemma_empty_channel_rejected(doc: AsyncApiSpec, i: int)
    requires
        0 <= i < doc.channels@.len(),
        doc.channels@[i].1.messages@.len() == 0,
    ensures
        first_violation(doc) is Some,
{
    if channels_violation(doc, i as nat) is Some {
        lemma_channels_found(doc, i as nat, doc.channels@.len());
    } else {
        assert(channels_violation(doc, (i + 1) as nat) is Some);
        lemma_channels_found(doc, (i + 1) as nat, doc.channels@.len());
    }
}

/// A channel without messages is reported by its name, where version and
/// info are in order and no channel before it breaks a rule.
pub proof fn lemma_empty_channel_named(doc: AsyncApiSpec, i: int)
    requires
        0 <= i < doc.channels@.len(),
        doc.channels@[i].1.messages@.len() == 0,
        header_violation(doc) is None,
        channels_violation(doc, i as nat) is None,
    ensures
        first_violation(doc) == Some(Violation::ChannelWithoutMessages(doc.channels@[i].0@)),
{
    assert(channels_violation(doc, (i + 1) as nat) == Some(
        Violation::ChannelWithoutMessages(doc.channels@[i].0@),
    ));
    lemma_channels_found(doc, (i + 1) as nat, doc.channels@.len());
}

/// A document in which a channel lists a server that the document does not
/// define is rejected.
pub proof fn lemma_unknown_server_rejected(doc: AsyncApiSpec, i: int, j: int)
    requires
        0 <= i < doc.channels@.len(),
        0 <= j < server_refs(doc.channels@[i].1).len(),
        !has_name(servers_of(doc), server_refs(doc.channels@[i].1)[j]@),
    ensures
        first_violation(doc) is Some,
{
    let channel = doc.channels@[i].1;
    let refs = server_refs(channel);
    if channels_violation(doc, i as nat) is Some {
        lemma_channels_found(doc, i as nat, doc.channels@.len());
    } else {
        if server_refs_violation(doc, refs, j as nat) is Some {
            lemma_server_refs_found(doc, refs, j as nat, refs.len());
        } else {
            assert(server_refs_violation(doc, refs, (j + 1) as nat) is Some);
            lemma_server_refs_found(doc, refs, (j + 1) as nat, refs.len());
        }
        assert(channels_violation(doc, (i + 1) as nat) is Some);
        lemma_channels_found(doc, (i + 1) as nat, doc.channels@.len());
    }
}

/// An undefined server is reported by its name, where version and info are
/// in order, no channel before this one breaks a rule, the channel has a
/// message, and the servers it lists before this one are defined.
pub proof fn lemma_unknown_server_named(doc: AsyncApiSpec, i: int, j: int)
    requires
        0 <= i < doc.channels@.len(),
        0 <= j < server_refs(doc.channels@[i].1).len(),
        !has_name(servers_of(doc), server_refs(doc.channels@[i].1)[j]@),
        header_violation(doc) is None,
        channels_violation(doc, i as nat) is None,
        doc.channels@[i].1.messages@.len() > 0,
        server_refs_violation(doc, server_refs(doc.channels@[i].1), j as nat) is None,
    ensures
        first_violation(doc) == Some(
            Violation::InvalidServerReference(
                server_ref_text(doc, server_refs(doc.channels@[i].1)[j]@),
            ),
        ),
{
    let channel = doc.channels@[i].1;
    let refs = server_refs(channel);
    let found = Some(Violation::InvalidServerReference(server_ref_text(doc, refs[j]@)));
    assert(server_refs_violation(doc, refs, (j + 1) as nat) == found);
    lemma_server_refs_found(doc, refs, (j + 1) as nat, refs.len());
    assert(channels_violation(doc, (i + 1) as nat) == found);
    lemma_channels_found(doc, (i + 1) as nat, doc.channels@.len());
}

/// A document in which a message id occurs twice, among the inline messages
/// of the channels and the component messages, is rejected.
pub proof fn lemma_duplicate_id_never_accepted(doc: AsyncApiSpec)
    requires
        !all_ids(doc).no_duplicates(),
    ensures
        first_violation(doc) is Some,
{
    if first_violation(doc) is None {
        lemma_accepted_well_formed(doc);
    }
}

/// A document in which a message id occurs twice, among the inline messages
/// of the channels and the component messages, is reported for a duplicate
/// message id, where it keeps every other rule.
pub proof fn lemma_duplicate_id_rejected(doc: AsyncApiSpec)
    requires
        sound_apart_from_ids(doc),
        !all_ids(doc).no_duplicates(),
    ensures
        first_violation(doc) is Some,
        first_violation(doc)->Some_0 is DuplicateMessageId,
{
    let n = doc.channels@.len();
    let ids = channel_ids(doc, n);
    let components = component_messages(doc);
    lemma_channels_scan(doc, n);
    if ids.no_duplicates() {
        lemma_components_scan(components, ids, components.len());
    }
}

} // verus!
