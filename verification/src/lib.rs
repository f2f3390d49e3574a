//! Core engine of a keyboard-driven browser shell: layered configuration
//! lookup, command resolution against script search paths, and dispatch
//! planning for the script execution bridge.

use vstd::prelude::*;

pub mod command;
pub mod config;
pub mod laws;
pub mod optparse;
pub mod script;
pub mod text;
pub mod trusted;
pub mod ui;
pub mod value;

use crate::command::{alias_lookup, candidate_path, Command};
use crate::config::Config;
use crate::optparse::RunConfiguration;
use crate::text::{
    head_token, seq_starts_with, split_first_space, split_key, str_starts_with, tail_after_token,
    views_of,
};
use crate::trusted::push_char;
use crate::ui::{
    default_command_of, disabled_of, search_paths_of, BrowserConfiguration, CommandError,
};
use crate::value::{list_at, lookup_key, opt_strs_view, Node};

verus! {

/// Application identifier for apps built with the webkitten core.
pub const WEBKITTEN_APP_ID: &'static str = "me.delisa.webkitten";

/// Application title for apps built with the webkitten core.
pub const WEBKITTEN_TITLE: &'static str = "webkitten";

/// File extension used by command files.
pub const COMMAND_FILE_SUFFIX: &'static str = "lua";

/// The core of a webkitten application. The engine handles configuration
/// options and decides how lifecycle and user events from the UI are
/// dispatched.
pub struct Engine {
    pub config: Config,
    run_config: RunConfiguration,
}

/// The string-valued pairs among the entries `es` at or after position
/// `i`, in order.
pub open spec fn str_pairs(es: Seq<(String, Node)>, i: int) -> Seq<(String, String)>
    decreases es.len() - i,
{
    if i < 0 || i >= es.len() {
        Seq::empty()
    } else {
        match es[i].1 {
            Node::Str(s) => seq![(es[i].0, s)] + str_pairs(es, i + 1),
            _ => str_pairs(es, i + 1),
        }
    }
}

/// The alias pairs the resolver consults: the string-valued entries under
/// `commands.aliases`, in the document's order.
pub open spec fn alias_pairs_of(doc: Node) -> Seq<(String, String)> {
    match lookup_key(doc, "commands.aliases"@) {
        Some(Node::Table(es)) => str_pairs(es@, 0),
        _ => Seq::empty(),
    }
}

/// The fallback text the default command produces for an unresolved input.
pub open spec fn fallback_text(d: Seq<char>, t: Seq<char>) -> Seq<char> {
    d + seq![' '] + t
}

/// A fallback text always begins with the default command that built it;
/// this prefix guard is what bounds the fallback retry.
pub proof fn lemma_fallback_guard(d: Seq<char>, t: Seq<char>)
    ensures
        seq_starts_with(fallback_text(d, t), d),
{
    assert forall|k: int| 0 <= k < d.len() implies fallback_text(d, t)[k] == d[k] by {
        assert(fallback_text(d, t)[k] == (d + seq![' '])[k]);
    }
}

/// A command shaped by resolving the text `t` against the document's
/// aliases, disabled list, search paths and the fixed file suffix.
pub open spec fn command_shape(doc: Node, t: Seq<char>, c: Command) -> bool {
    let name = alias_lookup(alias_pairs_of(doc), head_token(t), 0);
    &&& head_token(t).len() > 0
    &&& !disabled_of(doc).contains(name)
    &&& c.arguments@ == tail_after_token(t)
    &&& exists|j: int|
        0 <= j < search_paths_of(doc).len() && c.path@ == candidate_path(
            search_paths_of(doc)[j],
            name,
            COMMAND_FILE_SUFFIX@,
        )
}

/// A submission of `text` resolves `c` when `text` itself does, or when a
/// default command is configured, `text` does not already begin with it,
/// and the one fallback retry built from it does.
pub open spec fn submission_resolves(doc: Node, text: Seq<char>, c: Command) -> bool {
    ||| command_shape(doc, text, c)
    ||| (default_command_of(doc) matches Some(d) && !seq_starts_with(text, d) && command_shape(
        doc,
        fallback_text(d, text),
        c,
    ))
}

/// How many fallback retries a submission of `text` has left.
pub open spec fn retry_rank(doc: Node, text: Seq<char>) -> int {
    match default_command_of(doc) {
        Some(d) => if seq_starts_with(text, d) {
            0int
        } else {
            1int
        },
        None => 0int,
    }
}

/// What a command-bar submission resolves to: a script to run with its
/// argument text, or nothing, with the error that says why.
pub enum SubmissionPlan {
    RunScript(Command),
    NoCommand(CommandError),
}

/// A command that `Command::parse` produced from the document-derived
/// search paths, disabled list and alias pairs has the shape
/// `command_shape` states over the document itself.
proof fn lemma_shape_bridge(
    doc: Node,
    t: Seq<char>,
    c: Command,
    search_paths: Seq<String>,
    disabled: Seq<String>,
    aliases: Seq<(String, String)>,
)
    requires
        views_of(search_paths) == search_paths_of(doc),
        views_of(disabled) == disabled_of(doc),
        aliases == alias_pairs_of(doc),
        head_token(t).len() > 0,
        !crate::command::name_disabled(disabled, alias_lookup(aliases, head_token(t), 0)),
        c.arguments@ == tail_after_token(t),
        exists|j: int|
            0 <= j < search_paths.len() && c.path@ == candidate_path(
                search_paths[j]@,
                alias_lookup(aliases, head_token(t), 0),
                COMMAND_FILE_SUFFIX@,
            ),
    ensures
        command_shape(doc, t, c),
{
    let name = alias_lookup(aliases, head_token(t), 0);
    let j = choose|j: int|
        0 <= j < search_paths.len() && c.path@ == candidate_path(
            search_paths[j]@,
            name,
            COMMAND_FILE_SUFFIX@,
        );
    assert(views_of(search_paths)[j] == search_paths[j]@);
    assert(0 <= j < search_paths_of(doc).len() && c.path@ == candidate_path(
        search_paths_of(doc)[j],
        name,
        COMMAND_FILE_SUFFIX@,
    ));
}

/// The error a submission that resolves nothing reports: the input had no
/// command name, or no command matched it.
fn no_command_error(text: &str) -> (e: CommandError)
    ensures
        e == CommandError::NoCommandSpecified <==> head_token(text@).len() == 0,
        e == CommandError::NoCommandSpecified || e == CommandError::CommandNotFound,
{
    let (head, _rest) = split_first_space(text);
    if head.as_str().unicode_len() == 0 {
        CommandError::NoCommandSpecified
    } else {
        CommandError::CommandNotFound
    }
}

impl Engine {
    /// Path of the configuration document this engine was created from.
    pub closed spec fn config_path(&self) -> Seq<char> {
        self.run_config.path@
    }

    /// The configuration document the engine currently holds.
    pub closed spec fn doc(&self) -> Node {
        self.config.doc()
    }

    /// Create a new application engine from the startup record and the
    /// text of the configuration document read from its path. An engine is
    /// produced if and only if the document parses, and it holds that
    /// document's tree; otherwise no engine is produced.
    pub fn new(runtime: RunConfiguration, document: &str) -> (r: Option<Engine>)
        ensures
            r is Some <==> crate::trusted::toml_parses(document@),
            r matches Some(e) ==> e.config_path() == runtime.path@
                && crate::config::document_model(e.doc(), document@),
    {
        match Config::parse(document) {
            Some(config) => Some(Engine { config, run_config: runtime }),
            None => None,
        }
    }

    /// Replace the configuration with a re-read of the document. The swap
    /// happens if and only if the new text parses, and then the engine
    /// holds the new text's tree whole; on a parse failure the previous
    /// document stays in effect, never half-updated.
    pub fn reload(&mut self, document: &str) -> (ok: bool)
        ensures
            ok <==> crate::trusted::toml_parses(document@),
            ok ==> crate::config::document_model(final (self).doc(), document@),
            !ok ==> final (self).doc() == old(self).doc(),
            final (self).config_path() == old(self).config_path(),
    {
        self.config.load(document)
    }

    /// Paths searched for script commands.
    pub fn command_search_paths(&self) -> (r: Vec<String>)
        ensures
            views_of(r@) == search_paths_of(self.doc()),
    {
        self.config.command_search_paths()
    }

    /// The configuration section mapping aliases to command names.
    pub fn command_aliases(&self) -> (r: Option<&Node>)
        ensures
            match r {
                Some(v) => lookup_key(self.doc(), "commands.aliases"@) == Some(*v),
                None => lookup_key(self.doc(), "commands.aliases"@) is None,
            },
    {
        self.config.lookup("commands.aliases")
    }

    /// The commands disabled in configuration by name.
    pub fn commands_disabled(&self) -> (r: Option<Vec<String>>)
        ensures
            opt_strs_view(r) == list_at(self.doc(), split_key("commands.disabled"@)),
    {
        self.config.lookup_str_vec("commands.disabled")
    }

    /// The alias pairs derived from the configuration document: the
    /// string-valued entries under `commands.aliases`, in order.
    pub fn command_alias_pairs(&self) -> (r: Vec<(String, String)>)
        ensures
            r@ == alias_pairs_of(self.doc()),
    {
        let node = match self.config.lookup("commands.aliases") {
            Some(n) => n,
            None => {
                let r: Vec<(String, String)> = Vec::new();
                proof {
                    assert(r@ =~= alias_pairs_of(self.doc()));
                }
                return r;
            },
        };
        match node {
            Node::Table(es) => {
                let mut out: Vec<(String, String)> = Vec::new();
                let mut i: usize = 0;
                while i < es.len()
                    invariant
                        i <= es@.len(),
                        str_pairs(es@, 0) == out@ + str_pairs(es@, i as int),
                    decreases es@.len() - i,
                {
                    match &es[i].1 {
                        Node::Str(s) => {
                            let ghost prev = out@;
                            out.push((es[i].0.clone(), s.clone()));
                            proof {
                                assert(prev + str_pairs(es@, i as int) =~= out@ + str_pairs(
                                    es@,
                                    i + 1,
                                ));
                            }
                        },
                        _ => {},
                    }
                    i += 1;
                }
                proof {
                    assert(out@ + str_pairs(es@, es@.len() as int) =~= out@);
                }
                out
            },
            _ => {
                let r: Vec<(String, String)> = Vec::new();
                proof {
                    assert(r@ =~= alias_pairs_of(self.doc()));
                }
                r
            },
        }
    }

    /// Resolve a command-bar submission: the text resolved against the
    /// current configuration; when nothing matches and `commands.default`
    /// is configured, one retry with the default command prepended. The
    /// prefix guard is an invariant: a text that already begins with the
    /// default command is never retried, so the fallback cannot loop.
    #[verifier::rlimit(50)]
    pub fn plan_submission(&self, text: &str) -> (r: SubmissionPlan)
        ensures
            r matches SubmissionPlan::RunScript(c) ==> submission_resolves(
                self.doc(),
                text@,
                c,
            ),
            r matches SubmissionPlan::NoCommand(e) ==> (e == CommandError::NoCommandSpecified
                <==> head_token(text@).len() == 0) && (e == CommandError::NoCommandSpecified || e
                == CommandError::CommandNotFound),
        decreases retry_rank(self.doc(), text@),
    {
        let search_paths = self.command_search_paths();
        let disabled = match self.commands_disabled() {
            Some(d) => d,
            None => Vec::new(),
        };
        let aliases = self.command_alias_pairs();
        proof {
            assert(views_of(disabled@) =~= disabled_of(self.doc()));
        }
        match Command::parse(text, &search_paths, &disabled, &aliases, COMMAND_FILE_SUFFIX) {
            Some(c) => {
                proof {
                    lemma_shape_bridge(
                        self.doc(),
                        text@,
                        c,
                        search_paths@,
                        disabled@,
                        aliases@,
                    );
                    assert(submission_resolves(self.doc(), text@, c));
                }
                SubmissionPlan::RunScript(c)
            },
            None => {
                match self.config.default_command() {
                    Some(d) => {
                        if !str_starts_with(text, d.as_str()) {
                            let ghost dv = d@;
                            let mut retry = d;
                            push_char(&mut retry, ' ');
                            retry.append(text);
                            proof {
                                assert(retry@ =~= fallback_text(dv, text@));
                                lemma_fallback_guard(dv, text@);
                            }
                            let inner = self.plan_submission(retry.as_str());
                            match inner {
                                SubmissionPlan::RunScript(c) => {
                                    proof {
                                        assert(default_command_of(self.doc()) == Some(dv));
                                        assert(seq_starts_with(retry@, dv));
                                        assert(command_shape(self.doc(), retry@, c));
                                        assert(submission_resolves(self.doc(), text@, c));
                                    }
                                    SubmissionPlan::RunScript(c)
                                },
                                SubmissionPlan::NoCommand(_) => SubmissionPlan::NoCommand(
                                    no_command_error(text),
                                ),
                            }
                        } else {
                            SubmissionPlan::NoCommand(no_command_error(text))
                        }
                    },
                    None => SubmissionPlan::NoCommand(no_command_error(text)),
                }
            },
        }
    }

    /// The command a completion request resolves to. Completion uses the
    /// same alias, disabled-list and search-path rules as execution, and
    /// no default-command fallback; a disabled or empty name never
    /// resolves.
    pub fn completion_command(&self, prefix: &str) -> (r: Option<Command>)
        ensures
            r matches Some(c) ==> command_shape(self.doc(), prefix@, c),
            head_token(prefix@).len() == 0 ==> r is None,
            disabled_of(self.doc()).contains(
                alias_lookup(alias_pairs_of(self.doc()), head_token(prefix@), 0),
            ) ==> r is None,
    {
        let search_paths = self.command_search_paths();
        let disabled = match self.commands_disabled() {
            Some(d) => d,
            None => Vec::new(),
        };
        let aliases = self.command_alias_pairs();
        proof {
            assert(views_of(disabled@) =~= disabled_of(self.doc()));
        }
        let r = Command::parse(prefix, &search_paths, &disabled, &aliases, COMMAND_FILE_SUFFIX);
        proof {
            match &r {
                Some(c) => {
                    lemma_shape_bridge(
                        self.doc(),
                        prefix@,
                        *c,
                        search_paths@,
                        disabled@,
                        aliases@,
                    );
                },
                None => {},
            }
        }
        r
    }
}

} // verus!
