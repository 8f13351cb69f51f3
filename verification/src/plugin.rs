//! The plugin that Studio loads for one session.
//!
//! A plugin is two scripts: a fixed bootstrap, into which the callback port
//! and the session's identifier are written, and the user's script, wrapped
//! so that it loads as a function and runs only when the bootstrap calls it.

use crate::dom::{all_plain, encoded_xml, lemma_properties_are_plain, lemma_single_property};
use crate::dom::{properties_of, root_xml, tree_insert_top, tree_items, tree_new};
use crate::dom::{ItemView, Property, PropertyValue, PropertyView, WriteError};
use crate::text::{decimal, push_decimal};
use rbx_dom_weak::RbxTree;
use vstd::prelude::*;
use vstd::string::*;

verus! {

/// The bootstrap up to the place where the port is written.
pub const BOOTSTRAP_HEAD: &'static str = "local HttpService = game:GetService(\"HttpService\")\n\
local LogService = game:GetService(\"LogService\")\n\
\n\
local PORT = ";

/// The bootstrap between the port and the session's identifier.
pub const BOOTSTRAP_MIDDLE: &'static str = "\n\
local SERVER_ID = \"";

/// The bootstrap after the session's identifier.
pub const BOOTSTRAP_TAIL: &'static str = "\"\n\
local SERVER_URL = string.format(\"http://localhost:%d\", PORT)\n\
\n\
local LEVELS = {\n\
[Enum.MessageType.MessageOutput] = \"Print\",\n\
[Enum.MessageType.MessageInfo] = \"Info\",\n\
[Enum.MessageType.MessageWarning] = \"Warning\",\n\
[Enum.MessageType.MessageError] = \"Error\",\n\
}\n\
\n\
local function call(method, path, body)\n\
return HttpService:RequestAsync({\n\
Url = SERVER_URL .. path,\n\
Method = method,\n\
Headers = {\n\
[\"Content-Type\"] = \"application/json\",\n\
[\"Run-In-Roblox-Server-Id\"] = SERVER_ID,\n\
},\n\
Body = body,\n\
})\n\
end\n\
\n\
local reached, probe = pcall(call, \"GET\", \"/\")\n\
if not reached or not probe.Success or probe.Body ~= SERVER_ID then\n\
return\n\
end\n\
\n\
local queue = {}\n\
local sending = false\n\
local running = true\n\
\n\
local function report(level, body)\n\
table.insert(queue, { type = \"Output\", level = level, body = body })\n\
end\n\
\n\
local function flush()\n\
if sending then\n\
return\n\
end\n\
sending = true\n\
while #queue > 0 do\n\
local batch = queue\n\
queue = {}\n\
pcall(call, \"POST\", \"/messages\", HttpService:JSONEncode(batch))\n\
end\n\
sending = false\n\
end\n\
\n\
local connection = LogService.MessageOut:Connect(function(body, kind)\n\
report(LEVELS[kind] or \"Print\", body)\n\
end)\n\
\n\
call(\"POST\", \"/start\")\n\
\n\
spawn(function()\n\
while running do\n\
flush()\n\
wait(0.2)\n\
end\n\
end)\n\
\n\
local succeeded, problem = xpcall(function()\n\
require(script.Main)()\n\
end, debug.traceback)\n\
\n\
wait(0.2)\n\
running = false\n\
connection:Disconnect()\n\
\n\
if not succeeded then\n\
report(\"Error\", tostring(problem))\n\
end\n\
\n\
while sending do\n\
wait()\n\
end\n\
flush()\n\
call(\"POST\", \"/stop\")\n";

/// What stands before the user's script in its wrapping.
pub const WRAP_HEAD: &'static str = "return function()\n";

/// What stands after the user's script in its wrapping.
pub const WRAP_TAIL: &'static str = "\nend";

/// The token that marks, in the bootstrap's template, where the port goes.
pub const PORT_TOKEN: &'static str = "{{PORT}}";

/// The token that marks, in the bootstrap's template, where the session's
/// identifier goes.
pub const SERVER_ID_TOKEN: &'static str = "{{SERVER_ID}}";

/// The name of the property that holds a script's source.
pub const SOURCE_PROPERTY: &'static str = "Source";

/// The name of the bootstrap's instance.
pub const PLUGIN_NAME: &'static str = "run-in-roblox-plugin";

/// The class of the bootstrap's instance.
pub const PLUGIN_CLASS: &'static str = "Script";

/// The name of the instance that holds the wrapped script. The bootstrap
/// requires it by this name.
pub const MAIN_NAME: &'static str = "Main";

/// The class of the instance that holds the wrapped script.
pub const MAIN_CLASS: &'static str = "ModuleScript";

/// The bootstrap for a port and a session: the fixed text with the port, in
/// decimal, and the identifier written into its two places.
pub open spec fn bootstrap_text(port: u16, server_id: Seq<char>) -> Seq<char> {
    BOOTSTRAP_HEAD@ + decimal(port as nat) + BOOTSTRAP_MIDDLE@ + server_id + BOOTSTRAP_TAIL@
}

/// The bootstrap's template: the fixed text with a token in each of its two
/// places.
pub open spec fn template_text() -> Seq<char> {
    BOOTSTRAP_HEAD@ + PORT_TOKEN@ + BOOTSTRAP_MIDDLE@ + SERVER_ID_TOKEN@ + BOOTSTRAP_TAIL@
}

/// A script wrapped as the body of a function that the module returns.
pub open spec fn wrapped_script(script: Seq<char>) -> Seq<char> {
    WRAP_HEAD@ + script + WRAP_TAIL@
}

/// What is left of a wrapped script when the wrapping is taken off.
pub open spec fn unwrapped_script(wrapped: Seq<char>) -> Seq<char> {
    wrapped.subrange(WRAP_HEAD@.len() as int, wrapped.len() - WRAP_TAIL@.len())
}

/// What a plugin is made from.
#[derive(Debug, PartialEq, Eq)]
pub struct RunInRbxPlugin<'a> {
    pub port: u16,
    pub server_id: &'a str,
    pub lua_script: &'a str,
}

/// A `RunInRbxPlugin` as a mathematical value.
pub struct PluginView {
    pub port: u16,
    pub server_id: Seq<char>,
    pub lua_script: Seq<char>,
}

impl<'a> View for RunInRbxPlugin<'a> {
    type V = PluginView;

    open spec fn view(&self) -> PluginView {
        PluginView { port: self.port, server_id: self.server_id@, lua_script: self.lua_script@ }
    }
}

/// The contents of a plugin, ready to be written out.
#[derive(Debug, PartialEq, Eq)]
pub struct ExtensionPayload {
    pub server_id: String,
    pub port: u16,
    pub bootstrap_source: String,
    pub user_script: String,
}

/// An `ExtensionPayload` as a mathematical value.
pub struct PayloadView {
    pub server_id: Seq<char>,
    pub port: u16,
    pub bootstrap_source: Seq<char>,
    pub user_script: Seq<char>,
}

impl View for ExtensionPayload {
    type V = PayloadView;

    open spec fn view(&self) -> PayloadView {
        PayloadView {
            server_id: self.server_id@,
            port: self.port,
            bootstrap_source: self.bootstrap_source@,
            user_script: self.user_script@,
        }
    }
}

/// The payload of a plugin.
pub open spec fn payload_of(plugin: PluginView) -> PayloadView {
    PayloadView {
        server_id: plugin.server_id,
        port: plugin.port,
        bootstrap_source: bootstrap_text(plugin.port, plugin.server_id),
        user_script: wrapped_script(plugin.lua_script),
    }
}

/// A script as the one property of an instance that holds it.
pub open spec fn source_of(text: Seq<char>) -> Map<Seq<char>, PropertyView> {
    Map::<Seq<char>, PropertyView>::empty().insert(
        SOURCE_PROPERTY@,
        PropertyView::Text(text),
    )
}

/// The instances of a plugin: the bootstrap as a script at the root, and
/// under it the wrapped script as a module.
pub open spec fn plugin_items(plugin: PluginView) -> Seq<ItemView> {
    seq![
        ItemView {
            depth: 0,
            name: PLUGIN_NAME@,
            class_name: PLUGIN_CLASS@,
            properties: source_of(bootstrap_text(plugin.port, plugin.server_id)),
        },
        ItemView {
            depth: 1,
            name: MAIN_NAME@,
            class_name: MAIN_CLASS@,
            properties: source_of(wrapped_script(plugin.lua_script)),
        },
    ]
}

/// The bootstrap's template, with a token in each place that `bootstrap`
/// fills.
pub fn plugin_template() -> (template: String)
    ensures
        template@ == template_text(),
{
    let mut template = String::from_str(BOOTSTRAP_HEAD);
    template.append(PORT_TOKEN);
    template.append(BOOTSTRAP_MIDDLE);
    template.append(SERVER_ID_TOKEN);
    template.append(BOOTSTRAP_TAIL);
    template
}

/// The bootstrap for a port and a session.
pub fn bootstrap(port: u16, server_id: &str) -> (source: String)
    ensures
        source@ == bootstrap_text(port, server_id@),
{
    let mut source = String::from_str(BOOTSTRAP_HEAD);
    push_decimal(&mut source, port as u64);
    source.append(BOOTSTRAP_MIDDLE);
    source.append(server_id);
    source.append(BOOTSTRAP_TAIL);
    source
}

/// Wraps a script as the body of a function that the module returns, so
/// that loading the module runs nothing of the script.
pub fn wrap_script(script: &str) -> (wrapped: String)
    ensures
        wrapped@ == wrapped_script(script@),
{
    let mut wrapped = String::from_str(WRAP_HEAD);
    wrapped.append(script);
    wrapped.append(WRAP_TAIL);
    wrapped
}

impl<'a> RunInRbxPlugin<'a> {
    /// The contents of the plugin: the bootstrap for this port and session,
    /// and the wrapped script.
    pub fn payload(&self) -> (payload: ExtensionPayload)
        ensures
            payload@ == payload_of(self@),
    {
        ExtensionPayload {
            server_id: String::from_str(self.server_id),
            port: self.port,
            bootstrap_source: bootstrap(self.port, self.server_id),
            user_script: wrap_script(self.lua_script),
        }
    }
}

/// The one property of an instance that holds the script `text`.
fn source_property(text: String) -> (properties: Vec<Property>)
    ensures
        properties_of(properties@) == source_of(text@),
{
    let mut properties = Vec::new();
    properties.push(
        Property { name: String::from_str(SOURCE_PROPERTY), value: PropertyValue::Text(text) },
    );
    proof {
        lemma_single_property(properties@);
    }
    properties
}

impl<'a> RunInRbxPlugin<'a> {
    /// The plugin as a tree of instances.
    pub fn build_plugin(&self) -> (tree: RbxTree)
        ensures
            tree_items(tree) == plugin_items(self@),
            all_plain(tree_items(tree)),
    {
        let payload = self.payload();
        let bootstrap = source_property(payload.bootstrap_source);
        let main = source_property(payload.user_script);
        let mut tree = tree_new(PLUGIN_NAME, PLUGIN_CLASS, &bootstrap);
        tree_insert_top(&mut tree, MAIN_NAME, MAIN_CLASS, &main);
        proof {
            assert(tree_items(tree) =~= plugin_items(self@));
            lemma_properties_are_plain(bootstrap@);
            lemma_properties_are_plain(main@);
        }
        tree
    }

    /// The plugin as the bytes of a model file, ready to be written where
    /// Studio looks for plugins; or why it could not be encoded.
    pub fn write(&self) -> (file: Result<Vec<u8>, WriteError>)
        ensures
            match file {
                Ok(bytes) => encoded_xml(plugin_items(self@), seq![0int]) == Some(bytes@),
                Err(_) => encoded_xml(plugin_items(self@), seq![0int]) is None,
            },
    {
        let tree = self.build_plugin();
        root_xml(&tree)
    }
}

/// The bootstrap holds the port, in decimal, and the session's identifier,
/// each whole and at its own place between the fixed parts, and nothing
/// else but the fixed parts.
pub proof fn lemma_bootstrap_holds_port_and_session(port: u16, server_id: Seq<char>)
    ensures
        ({
            let text = bootstrap_text(port, server_id);
            let port_at = BOOTSTRAP_HEAD@.len() as int;
            let id_at = port_at + decimal(port as nat).len() + BOOTSTRAP_MIDDLE@.len();
            &&& text.len() == id_at + server_id.len() + BOOTSTRAP_TAIL@.len()
            &&& text.subrange(0, port_at) == BOOTSTRAP_HEAD@
            &&& text.subrange(port_at, port_at + decimal(port as nat).len()) == decimal(port as nat)
            &&& text.subrange(port_at + decimal(port as nat).len(), id_at) == BOOTSTRAP_MIDDLE@
            &&& text.subrange(id_at, id_at + server_id.len()) == server_id
            &&& text.subrange(id_at + server_id.len(), text.len() as int) == BOOTSTRAP_TAIL@
        }),
{
    let text = bootstrap_text(port, server_id);
    let port_at = BOOTSTRAP_HEAD@.len() as int;
    let id_at = port_at + decimal(port as nat).len() + BOOTSTRAP_MIDDLE@.len();
    assert(text.subrange(0, port_at) =~= BOOTSTRAP_HEAD@);
    assert(text.subrange(port_at, port_at + decimal(port as nat).len()) =~= decimal(port as nat));
    assert(text.subrange(port_at + decimal(port as nat).len(), id_at) =~= BOOTSTRAP_MIDDLE@);
    assert(text.subrange(id_at, id_at + server_id.len()) =~= server_id);
    assert(text.subrange(id_at + server_id.len(), text.len() as int) =~= BOOTSTRAP_TAIL@);
}

/// Wrapping loses nothing of a script: taking the wrapping off gives the
/// script back, character for character.
pub proof fn lemma_wrapped_script_round_trips(script: Seq<char>)
    ensures
        unwrapped_script(wrapped_script(script)) == script,
        wrapped_script(script).subrange(0, WRAP_HEAD@.len() as int) == WRAP_HEAD@,
        wrapped_script(script).subrange(
            (WRAP_HEAD@.len() + script.len()) as int,
            wrapped_script(script).len() as int,
        ) == WRAP_TAIL@,
{
    let wrapped = wrapped_script(script);
    assert(unwrapped_script(wrapped) =~= script);
    assert(wrapped.subrange(0, WRAP_HEAD@.len() as int) =~= WRAP_HEAD@);
    assert(wrapped.subrange((WRAP_HEAD@.len() + script.len()) as int, wrapped.len() as int) =~= WRAP_TAIL@);
}

/// Two scripts with the same wrapping are the same script.
pub proof fn lemma_wrapping_is_injective(a: Seq<char>, b: Seq<char>)
    requires
        wrapped_script(a) == wrapped_script(b),
    ensures
        a == b,
{
    lemma_wrapped_script_round_trips(a);
    lemma_wrapped_script_round_trips(b);
}

} // verus!
