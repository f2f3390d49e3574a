//! The boundary traits of the engine: the capability contract a front end
//! implements, the event contract a front end drives, and the
//! configuration contract with its lookup policy.

use vstd::prelude::*;

use crate::text::{split_key, views_of};
use crate::value::{
    bool_at, config_dir_of, list_at, opt_str_view, opt_strs_view, raw_str_at, site_segs, str_at,
    Node,
};

verus! {

/// Why a command-bar submission produced no effect.
#[derive(Debug, PartialEq, Eq, Structural, Clone, Copy)]
pub enum CommandError {
    /// No command matches the given text
    CommandNotFound,
    /// Command execution halted with an error
    ErrorDuringExecution,
    /// The provided arguments were invalid in the context of the given command
    InvalidArguments,
    /// There was no command text specified
    NoCommandSpecified,
}

/// The outcome surfaced to the UI for a command-bar submission.
pub struct CommandOutput {
    pub error: Option<CommandError>,
    pub message: Option<String>,
}

/// The outcome surfaced to the UI for an address-bar submission. Address
/// updating is an open extension point of this design generation, so the
/// engine answers that it is not supported rather than failing abruptly.
#[derive(Debug, PartialEq, Eq, Structural, Clone, Copy)]
pub enum AddressUpdateOutput {
    Updated,
    NotSupported,
}

/// A navigation lifecycle event for a window/webview pair.
#[derive(Debug, Copy, Clone)]
pub enum URIEvent {
    Fail,
    Load,
    Request,
}

/// The capability contract: the fixed operation set the external UI front
/// end implements and the engine exposes to scripts. The engine never
/// retains an implementation past the call that received it.
pub trait ApplicationUI: Sized {
    /// Create a new UI
    fn new(engine: crate::Engine) -> Option<Self>;

    /// UI event handler
    fn event_handler(&self) -> &crate::Engine;

    /// Initialize all needed UI functions
    fn run(&self);

    /// Copy text to the system clipboard
    fn copy(&self, text: &str);

    /// The index of the focused window
    fn focused_window_index(&self) -> u8;

    /// Number of open windows
    fn window_count(&self) -> u8;

    /// Open a new window
    fn open_window(&self, uri: Option<&str>);

    /// Close a window
    fn close_window(&self, index: u8);

    /// Focus window at index
    fn focus_window(&self, index: u8);

    /// Set window visibility
    fn toggle_window(&self, index: u8, visible: bool);

    /// Change the dimensions of a specified window
    fn resize_window(&self, window_index: u8, width: u32, height: u32);

    /// Text in the address bar of a specified window
    fn address_field_text(&self, window_index: u8) -> String;

    /// Set the text in the address bar of a specified window
    fn set_address_field_text(&self, window_index: u8, text: &str);

    /// Text in the command bar of a specified window
    fn command_field_text(&self, window_index: u8) -> String;

    /// Set the text in the command bar of a specified window
    fn set_command_field_text(&self, window_index: u8, text: &str);

    /// Title of a specified window
    fn window_title(&self, window_index: u8) -> String;

    /// Set the title of a specified window
    fn set_window_title(&self, window_index: u8, title: &str);

    /// Index of the webview currently visible in a specified window
    fn focused_webview_index(&self, window_index: u8) -> u8;

    /// Number of webviews in a window
    fn webview_count(&self, window_index: u8) -> u8;

    /// Open a new webview in a specified window
    fn open_webview(&self, window_index: u8, uri: &str);

    /// Close a webview in a specified window
    fn close_webview(&self, window_index: u8, webview_index: u8);

    /// Focus a webview in a specified window, hiding the current webview
    fn focus_webview(&self, window_index: u8, webview_index: u8);

    /// Reload a webview in a specified window
    fn reload_webview(&self, window_index: u8, webview_index: u8, disable_filters: bool);

    /// Load a URI in a webview
    fn set_uri(&self, window_index: u8, webview_index: u8, uri: &str);

    /// Go back to the previously loaded resource in a webview
    fn go_back(&self, window_index: u8, webview_index: u8) -> bool;

    /// Go forward to the next loaded resource in a webview
    fn go_forward(&self, window_index: u8, webview_index: u8) -> bool;

    /// Get the currently loaded URI or empty string
    fn uri(&self, window_index: u8, webview_index: u8) -> String;

    /// Find a string within the selected web view
    fn find_string(&self, window_index: u8, webview_index: u8, query: &str);

    /// Hide results from a previous find invocation (if applicable)
    fn hide_find_results(&self, window_index: u8, webview_index: u8);

    /// Get the title of the currently loaded URI or empty string
    fn webview_title(&self, window_index: u8, webview_index: u8) -> String;

    /// Run a JavaScript snippet in a webview
    fn run_javascript(&self, window_index: u8, webview_index: u8, script: &str);

    /// Apply a stylesheet to a webview
    fn apply_styles(&self, window_index: u8, webview_index: u8, styles: &str);
}

/// The event contract: what the external UI pushes into the engine. A
/// front end drives these entry points; the engine supplies the verified
/// decisions behind them.
pub trait EventHandler {
    /// Handle a Return key press within the command bar
    fn execute_command<T: ApplicationUI>(&self, ui: &T, window_index: u8, text: &str)
        -> CommandOutput;

    /// Handle a Return key press within the address bar
    fn update_address<T: ApplicationUI>(
        &self,
        ui: &T,
        window_index: u8,
        webview_index: u8,
        text: &str,
    ) -> AddressUpdateOutput;

    /// Close the application
    fn close<T: ApplicationUI>(&self, ui: &T);

    /// Get available commands and/or arguments given a prefix
    fn command_completions<T: ApplicationUI>(&self, ui: &T, prefix: &str) -> Vec<String>;

    /// Get address suggestions given a prefix
    fn address_completions<T: ApplicationUI>(&self, ui: &T, prefix: &str) -> Vec<String>;

    /// Handle a document load event in a webview.
    ///
    /// ## Events
    ///
    /// * `URIEvent::Request`: Invoke before document begins loading
    /// * `URIEvent::Load`: Invoke after document finishes loading but not
    ///   necessarily after subresources load
    /// * `URIEvent::Fail`: Invoke after a document fails to load
    fn on_uri_event<T: ApplicationUI>(
        &self,
        ui: &T,
        window_index: u8,
        webview_index: u8,
        uri: &str,
        event: URIEvent,
    );
}

/// The fallback command configured under `commands.default`, if any.
pub open spec fn default_command_of(doc: Node) -> Option<Seq<char>> {
    str_at(doc, split_key("commands.default"@))
}

/// Whether `name` is listed under `commands.disabled`.
pub open spec fn spec_command_disabled(doc: Node, name: Seq<char>) -> bool {
    match list_at(doc, split_key("commands.disabled"@)) {
        Some(vs) => vs.contains(name),
        None => false,
    }
}

/// The key under which an alias for `name` is configured.
pub open spec fn alias_key(name: Seq<char>) -> Seq<char> {
    "commands.aliases."@ + name
}

/// `name` mapped through `commands.aliases`, identity when no alias is
/// configured; absent when the result is a disabled command.
pub open spec fn spec_resolved_command_name(doc: Node, name: Seq<char>) -> Option<Seq<char>> {
    let command = match str_at(doc, split_key(alias_key(name))) {
        Some(s) => s,
        None => name,
    };
    if spec_command_disabled(doc, command) {
        None
    } else {
        Some(command)
    }
}

/// The key under which a text-change command for texts beginning with `c`
/// is configured.
pub open spec fn prefix_key(c: char) -> Seq<char> {
    "commands.on-text-change."@ + seq!['"', c, '"']
}

/// The command text configured for the first character of `text`, with the
/// remainder of `text` appended after a space.
pub open spec fn spec_command_matching_prefix(doc: Node, text: Seq<char>) -> Option<Seq<char>> {
    if text.len() > 0 {
        match str_at(doc, split_key(prefix_key(text[0]))) {
            Some(script) => Some(script + seq![' '] + text.skip(1)),
            None => None,
        }
    } else {
        None
    }
}

/// The site-specific boolean for the host of `uri` when configured, else
/// the general boolean when configured, else false.
pub open spec fn site_or_general_bool(
    doc: Node,
    uri: Seq<char>,
    site_key: Seq<char>,
    general_key: Seq<char>,
) -> bool {
    match bool_at(doc, site_segs(uri, site_key)) {
        Some(b) => b,
        None => match bool_at(doc, split_key(general_key)) {
            Some(m) => m,
            None => false,
        },
    }
}

/// Content filtering is skipped when no filter is configured, and
/// otherwise exactly when the site override asks for it.
pub open spec fn spec_skip_content_filter(doc: Node, uri: Seq<char>) -> bool {
    if str_at(doc, split_key("general.content-filter"@)) is Some {
        match bool_at(doc, site_segs(uri, "skip-content-filter"@)) {
            Some(b) => b,
            None => false,
        }
    } else {
        true
    }
}

/// The ordered script directories under `commands.search-paths`, empty
/// when not configured.
pub open spec fn search_paths_of(doc: Node) -> Seq<Seq<char>> {
    match list_at(doc, split_key("commands.search-paths"@)) {
        Some(vs) => vs,
        None => Seq::empty(),
    }
}

/// The names under `commands.disabled`, empty when not configured.
pub open spec fn disabled_of(doc: Node) -> Seq<Seq<char>> {
    match list_at(doc, split_key("commands.disabled"@)) {
        Some(vs) => vs,
        None => Seq::empty(),
    }
}

/// The configuration key whose command list a navigation event triggers.
pub open spec fn uri_event_key(event: URIEvent) -> Seq<char> {
    match event {
        URIEvent::Load => "commands.on-load-uri"@,
        URIEvent::Request => "commands.on-request-uri"@,
        URIEvent::Fail => "commands.on-fail-uri"@,
    }
}

/// The command texts a navigation event triggers, empty when not
/// configured.
pub open spec fn on_uri_event_commands_of(doc: Node, event: URIEvent) -> Seq<Seq<char>> {
    match list_at(doc, split_key(uri_event_key(event))) {
        Some(vs) => vs,
        None => Seq::empty(),
    }
}

/// The configuration contract: reading the layered settings document. All
/// answers are absent on a missing or type-mismatched path; no lookup
/// fails.
pub trait BrowserConfiguration: Sized {
    /// The configuration document an implementation holds.
    spec fn doc(&self) -> Node;

    /// Parse a string literal into a `BrowserConfiguration`. A
    /// configuration comes back if and only if the document format's
    /// grammar admits the text, and it holds the text's document tree.
    fn parse(raw_input: &str) -> (r: Option<Self>)
        ensures
            r is Some <==> crate::trusted::toml_parses(raw_input@),
            r matches Some(c) ==> crate::config::document_model(c.doc(), raw_input@),
    ;

    /// The page opened with each new window or empty buffer based on
    /// `window.start-page`
    fn start_page(&self) -> (r: Option<String>)
        ensures
            opt_str_view(r) == str_at(self.doc(), split_key("window.start-page"@)),
    ;

    /// The directory replacing instances of the reserved placeholder in
    /// configured strings, based on `general.config-dir`
    fn config_dir(&self) -> (r: Option<String>)
        ensures
            opt_str_view(r) == config_dir_of(self.doc()),
    ;

    /// The name of a command resolving any matching alias in
    /// `commands.aliases`
    fn resolved_command_name(&self, name: &str) -> (r: Option<String>)
        ensures
            opt_str_view(r) == spec_resolved_command_name(self.doc(), name@),
    ;

    /// The command text configured under `commands.on-text-change` for the
    /// first character of `text`, completed with the rest of `text`
    fn command_matching_prefix(&self, text: &str) -> (r: Option<String>)
        ensures
            opt_str_view(r) == spec_command_matching_prefix(self.doc(), text@),
    ;

    /// Whether a command is disabled based on `commands.disabled`
    fn command_disabled(&self, name: &str) -> (r: bool)
        ensures
            r == spec_command_disabled(self.doc(), name@),
    ;

    /// The path to the content filter used in buffers based on
    /// `general.content-filter`
    fn content_filter_path(&self) -> (r: Option<String>)
        ensures
            opt_str_view(r) == str_at(self.doc(), split_key("general.content-filter"@)),
    ;

    /// Whether to skip content filtering based on the site-specific option
    /// `sites."[HOST]".skip-content-filter`
    fn skip_content_filter(&self, uri: &str) -> (r: bool)
        ensures
            r == spec_skip_content_filter(self.doc(), uri@),
    ;

    /// Whether to enable private browsing based on the global option
    /// `general.private-browsing` and site-specific option
    /// `sites."[HOST]".private-browsing`. Defaults to `false`.
    fn use_private_browsing(&self, uri: &str) -> (r: bool)
        ensures
            r == site_or_general_bool(
                self.doc(),
                uri@,
                "private-browsing"@,
                "general.private-browsing"@,
            ),
    ;

    /// Whether to allow browser plugins to run in a buffer based on the
    /// global option `general.allow-plugins` and site-specific option
    /// `sites."[HOST]".allow-plugins`. Defaults to `false`.
    fn use_plugins(&self, uri: &str) -> (r: bool)
        ensures
            r == site_or_general_bool(self.doc(), uri@, "allow-plugins"@, "general.allow-plugins"@),
    ;

    /// Paths to search for command scripts using configuration option
    /// `commands.search-paths`
    fn command_search_paths(&self) -> (r: Vec<String>)
        ensures
            views_of(r@) == search_paths_of(self.doc()),
    ;

    /// Command to run when no other commands are matched using
    /// configuration option `commands.default`
    fn default_command(&self) -> (r: Option<String>)
        ensures
            opt_str_view(r) == default_command_of(self.doc()),
    ;

    /// Commands triggered by a URI load event
    ///
    /// ## Events
    ///
    /// * `Load`: invokes all commands listed in `commands.on-load-uri`
    /// * `Request`: invokes all commands listed in `commands.on-request-uri`
    /// * `Fail`: invokes all commands listed in `commands.on-fail-uri`
    fn on_uri_event_commands(&self, event: URIEvent) -> (r: Vec<String>)
        ensures
            views_of(r@) == on_uri_event_commands_of(self.doc(), event),
    ;

    /// Look up the bool value of a configuration option matching key
    fn lookup_bool(&self, key: &str) -> (r: Option<bool>)
        ensures
            r == bool_at(self.doc(), split_key(key@)),
    ;

    /// Look up the string value of a configuration option matching key,
    /// replacing string variables where possible
    fn lookup_str(&self, key: &str) -> (r: Option<String>)
        ensures
            opt_str_view(r) == str_at(self.doc(), split_key(key@)),
    ;

    /// Look up the string value of a configuration option without any
    /// substitutions
    fn lookup_raw_str(&self, key: &str) -> (r: Option<String>)
        ensures
            opt_str_view(r) == raw_str_at(self.doc(), split_key(key@)),
    ;

    /// Look up the string vector value of a configuration option matching
    /// key, replacing string variables in each element where possible
    fn lookup_str_vec(&self, key: &str) -> (r: Option<Vec<String>>)
        ensures
            opt_strs_view(r) == list_at(self.doc(), split_key(key@)),
    ;

    /// Look up the bool value of a configuration option matching key
    /// formatted as `sites."[HOST]".[key]`
    fn lookup_site_bool(&self, uri: &str, key: &str) -> (r: Option<bool>)
        ensures
            r == bool_at(self.doc(), site_segs(uri@, key@)),
    ;

    /// Look up the string value of a configuration option matching key
    /// formatted as `sites."[HOST]".[key]`
    fn lookup_site_str(&self, uri: &str, key: &str) -> (r: Option<String>)
        ensures
            opt_str_view(r) == str_at(self.doc(), site_segs(uri@, key@)),
    ;

    /// Look up the string vector value of a configuration option matching
    /// key formatted as `sites."[HOST]".[key]`
    fn lookup_site_str_vec(&self, uri: &str, key: &str) -> (r: Option<Vec<String>>)
        ensures
            opt_strs_view(r) == list_at(self.doc(), site_segs(uri@, key@)),
    ;
}

} // verus!
