use vstd::prelude::*;
use vstd::string::*;

verus! {

/// A message's payload schema is null.
pub open spec fn null_schema_text(message: Seq<char>, channel: Seq<char>) -> Seq<char> {
    "Message '"@ + message + "' in channel '"@ + channel + "' has null schema"@
}

/// The text of `null_schema_text`.
pub fn null_schema_message(message: &str, channel: &str) -> (text: String)
    ensures
        text@ == null_schema_text(message@, channel@),
{
    let mut text = String::from_str("Message '");
    text.append(message);
    text.append("' in channel '");
    text.append(channel);
    text.append("' has null schema");
    text
}

/// A message id of a channel's message was seen before.
pub open spec fn duplicate_id_text(id: Seq<char>, channel: Seq<char>, message: Seq<char>) -> Seq<char> {
    "Message ID '"@ + id + "' is used by multiple messages. Each message must have a unique messageId. Found in channel '"@ + channel + "', message '"@ + message + "'"@
}

/// The text of `duplicate_id_text`.
pub fn duplicate_id_message(id: &str, channel: &str, message: &str) -> (text: String)
    ensures
        text@ == duplicate_id_text(id@, channel@, message@),
{
    let mut text = String::from_str("Message ID '");
    text.append(id);
    text.append("' is used by multiple messages. Each message must have a unique messageId. Found in channel '");
    text.append(channel);
    text.append("', message '");
    text.append(message);
    text.append("'");
    text
}

/// A message refers to a component message that does not exist.
pub open spec fn missing_component_text(message: Seq<char>, channel: Seq<char>, component: Seq<char>) -> Seq<char> {
    "Message '"@ + message + "' in channel '"@ + channel + "' references component '"@ + component + "' which does not exist in components.messages"@
}

/// The text of `missing_component_text`.
pub fn missing_component_message(message: &str, channel: &str, component: &str) -> (text: String)
    ensures
        text@ == missing_component_text(message@, channel@, component@),
{
    let mut text = String::from_str("Message '");
    text.append(message);
    text.append("' in channel '");
    text.append(channel);
    text.append("' references component '");
    text.append(component);
    text.append("' which does not exist in components.messages");
    text
}

/// A message refers to a component message, and the components hold no messages.
pub open spec fn no_component_messages_text(message: Seq<char>, channel: Seq<char>, component: Seq<char>) -> Seq<char> {
    "Message '"@ + message + "' in channel '"@ + channel + "' references component '"@ + component + "' but no components.messages are defined"@
}

/// The text of `no_component_messages_text`.
pub fn no_component_messages_message(message: &str, channel: &str, component: &str) -> (text: String)
    ensures
        text@ == no_component_messages_text(message@, channel@, component@),
{
    let mut text = String::from_str("Message '");
    text.append(message);
    text.append("' in channel '");
    text.append(channel);
    text.append("' references component '");
    text.append(component);
    text.append("' but no components.messages are defined");
    text
}

/// A message refers to a component message, and the document has no components.
pub open spec fn no_components_text(message: Seq<char>, channel: Seq<char>, component: Seq<char>) -> Seq<char> {
    "Message '"@ + message + "' in channel '"@ + channel + "' references component '"@ + component + "' but no components section is defined"@
}

/// The text of `no_components_text`.
pub fn no_components_message(message: &str, channel: &str, component: &str) -> (text: String)
    ensures
        text@ == no_components_text(message@, channel@, component@),
{
    let mut text = String::from_str("Message '");
    text.append(message);
    text.append("' in channel '");
    text.append(channel);
    text.append("' references component '");
    text.append(component);
    text.append("' but no components section is defined");
    text
}

/// A message refers to a message that its channel does not hold.
pub open spec fn missing_channel_message_text(message: Seq<char>, channel: Seq<char>, target_message: Seq<char>, target_channel: Seq<char>) -> Seq<char> {
    "Message '"@ + message + "' in channel '"@ + channel + "' references message '"@ + target_message + "' in channel '"@ + target_channel + "' which does not exist"@
}

/// The text of `missing_channel_message_text`.
pub fn missing_channel_message_message(message: &str, channel: &str, target_message: &str, target_channel: &str) -> (text: String)
    ensures
        text@ == missing_channel_message_text(message@, channel@, target_message@, target_channel@),
{
    let mut text = String::from_str("Message '");
    text.append(message);
    text.append("' in channel '");
    text.append(channel);
    text.append("' references message '");
    text.append(target_message);
    text.append("' in channel '");
    text.append(target_channel);
    text.append("' which does not exist");
    text
}

/// A message refers to a channel that does not exist.
pub open spec fn missing_channel_text(message: Seq<char>, channel: Seq<char>, target_channel: Seq<char>) -> Seq<char> {
    "Message '"@ + message + "' in channel '"@ + channel + "' references channel '"@ + target_channel + "' which does not exist"@
}

/// The text of `missing_channel_text`.
pub fn missing_channel_message(message: &str, channel: &str, target_channel: &str) -> (text: String)
    ensures
        text@ == missing_channel_text(message@, channel@, target_channel@),
{
    let mut text = String::from_str("Message '");
    text.append(message);
    text.append("' in channel '");
    text.append(channel);
    text.append("' references channel '");
    text.append(target_channel);
    text.append("' which does not exist");
    text
}

/// A message reference has neither of the two accepted shapes.
pub open spec fn bad_reference_text(channel: Seq<char>, message: Seq<char>, path: Seq<char>) -> Seq<char> {
    "Invalid message reference format in channel '"@ + channel + "', message '"@ + message + "': "@ + path + ". Expected '#/components/messages/...' or '#/channels/.../messages/...'"@
}

/// The text of `bad_reference_text`.
pub fn bad_reference_message(channel: &str, message: &str, path: &str) -> (text: String)
    ensures
        text@ == bad_reference_text(channel@, message@, path@),
{
    let mut text = String::from_str("Invalid message reference format in channel '");
    text.append(channel);
    text.append("', message '");
    text.append(message);
    text.append("': ");
    text.append(path);
    text.append(". Expected '#/components/messages/...' or '#/channels/.../messages/...'");
    text
}

/// An operation's message reference has neither of the two accepted shapes.
pub open spec fn bad_operation_reference_text(operation: Seq<char>, path: Seq<char>) -> Seq<char> {
    "Invalid message reference format in operation '"@ + operation + "': "@ + path + ". Expected '#/channels/.../messages/...' or '#/components/messages/...'"@
}

/// The text of `bad_operation_reference_text`.
pub fn bad_operation_reference_message(operation: &str, path: &str) -> (text: String)
    ensures
        text@ == bad_operation_reference_text(operation@, path@),
{
    let mut text = String::from_str("Invalid message reference format in operation '");
    text.append(operation);
    text.append("': ");
    text.append(path);
    text.append(". Expected '#/channels/.../messages/...' or '#/components/messages/...'");
    text
}

/// An operation refers to a component message that does not exist.
pub open spec fn operation_missing_component_text(operation: Seq<char>, component: Seq<char>) -> Seq<char> {
    "Operation '"@ + operation + "' references component message '"@ + component + "' which does not exist in components.messages"@
}

/// The text of `operation_missing_component_text`.
pub fn operation_missing_component_message(operation: &str, component: &str) -> (text: String)
    ensures
        text@ == operation_missing_component_text(operation@, component@),
{
    let mut text = String::from_str("Operation '");
    text.append(operation);
    text.append("' references component message '");
    text.append(component);
    text.append("' which does not exist in components.messages");
    text
}

/// An operation refers to a component message, and the components hold no messages.
pub open spec fn operation_no_component_messages_text(operation: Seq<char>, component: Seq<char>) -> Seq<char> {
    "Operation '"@ + operation + "' references component message '"@ + component + "' but no components.messages are defined"@
}

/// The text of `operation_no_component_messages_text`.
pub fn operation_no_component_messages_message(operation: &str, component: &str) -> (text: String)
    ensures
        text@ == operation_no_component_messages_text(operation@, component@),
{
    let mut text = String::from_str("Operation '");
    text.append(operation);
    text.append("' references component message '");
    text.append(component);
    text.append("' but no components.messages are defined");
    text
}

/// An operation refers to a component message, and the document has no components.
pub open spec fn operation_no_components_text(operation: Seq<char>, component: Seq<char>) -> Seq<char> {
    "Operation '"@ + operation + "' references component message '"@ + component + "' but no components section is defined"@
}

/// The text of `operation_no_components_text`.
pub fn operation_no_components_message(operation: &str, component: &str) -> (text: String)
    ensures
        text@ == operation_no_components_text(operation@, component@),
{
    let mut text = String::from_str("Operation '");
    text.append(operation);
    text.append("' references component message '");
    text.append(component);
    text.append("' but no components section is defined");
    text
}

/// A server uses a protocol that is not supported; `supported` is the list of supported ones as text.
pub open spec fn unsupported_protocol_text(server: Seq<char>, protocol: Seq<char>, supported: Seq<char>) -> Seq<char> {
    "Server '"@ + server + "' uses unsupported protocol '"@ + protocol + "'. Supported protocols: "@ + supported
}

/// The text of `unsupported_protocol_text`.
pub fn unsupported_protocol_message(server: &str, protocol: &str, supported: &str) -> (text: String)
    ensures
        text@ == unsupported_protocol_text(server@, protocol@, supported@),
{
    let mut text = String::from_str("Server '");
    text.append(server);
    text.append("' uses unsupported protocol '");
    text.append(protocol);
    text.append("'. Supported protocols: ");
    text.append(supported);
    text
}

/// Inline channel bindings lack the key of the channel's protocol; `label` is the protocol's label and `key` its identifier.
pub open spec fn binding_key_text(channel: Seq<char>, label: Seq<char>, key: Seq<char>) -> Seq<char> {
    "Channel '"@ + channel + "': "@ + label + " channel bindings must have '"@ + key + "' key"@
}

/// The text of `binding_key_text`.
pub fn binding_key_message(channel: &str, label: &str, key: &str) -> (text: String)
    ensures
        text@ == binding_key_text(channel@, label@, key@),
{
    let mut text = String::from_str("Channel '");
    text.append(channel);
    text.append("': ");
    text.append(label);
    text.append(" channel bindings must have '");
    text.append(key);
    text.append("' key");
    text
}

/// A component message's payload schema is null.
pub open spec fn component_null_schema_text(component: Seq<char>) -> Seq<char> {
    "Component message '"@ + component + "' has null schema"@
}

/// The text of `component_null_schema_text`.
pub fn component_null_schema_message(component: &str) -> (text: String)
    ensures
        text@ == component_null_schema_text(component@),
{
    let mut text = String::from_str("Component message '");
    text.append(component);
    text.append("' has null schema");
    text
}

/// A message id of a component message was seen before.
pub open spec fn component_duplicate_id_text(id: Seq<char>, component: Seq<char>) -> Seq<char> {
    "Message ID '"@ + id + "' is used by multiple messages. Found in component message '"@ + component + "'"@
}

/// The text of `component_duplicate_id_text`.
pub fn component_duplicate_id_message(id: &str, component: &str) -> (text: String)
    ensures
        text@ == component_duplicate_id_text(id@, component@),
{
    let mut text = String::from_str("Message ID '");
    text.append(id);
    text.append("' is used by multiple messages. Found in component message '");
    text.append(component);
    text.append("'");
    text
}

/// A channel names a server, and the document defines none.
pub open spec fn no_servers_text(server: Seq<char>) -> Seq<char> {
    server + ": No servers defined. Add servers(...) to your #[asyncapi] attribute. Referenced server: '"@ + server + "'"@
}

/// The text of `no_servers_text`.
pub fn no_servers_message(server: &str) -> (text: String)
    ensures
        text@ == no_servers_text(server@),
{
    let mut text = String::from_str(server);
    text.append(": No servers defined. Add servers(...) to your #[asyncapi] attribute. Referenced server: '");
    text.append(server);
    text.append("'");
    text
}

/// A channel names a server that is not among the defined ones; `available` is the list of defined ones as text.
pub open spec fn unknown_server_text(server: Seq<char>, available: Seq<char>) -> Seq<char> {
    server + ": Server '"@ + server + "' not found. Available servers: "@ + available + ". Update your channel's server reference or add the server in servers(...)"@
}

/// The text of `unknown_server_text`.
pub fn unknown_server_message(server: &str, available: &str) -> (text: String)
    ensures
        text@ == unknown_server_text(server@, available@),
{
    let mut text = String::from_str(server);
    text.append(": Server '");
    text.append(server);
    text.append("' not found. Available servers: ");
    text.append(available);
    text.append(". Update your channel's server reference or add the server in servers(...)");
    text
}

} // verus!
