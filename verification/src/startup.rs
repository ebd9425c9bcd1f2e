//! What `open` arranges before any page code runs: the process-wide engine
//! arguments, the `;`-delimited define list, and the ordered task plan the
//! engine thread works through — defines bound first, the message-channel
//! object bound, the virtual host mapped, and only then the navigation.

use vstd::prelude::*;
use vstd::string::{StrSliceExecFns, StringExecFns};

use crate::cell::{Payload, ValueCell};
use crate::utf16::{chars_to_string, from_utf16, utf16_encode, valid_utf16};

verus! {

/// The parameters of one `open` call, as decoded at the foreign boundary.
pub struct InitializeState {
    pub url_str: String,
    pub host_name: Option<String>,
    pub folder_path: Option<String>,
    pub defines: Vec<String>,
}

/// One unit of work on the engine thread during the asynchronous open
/// chain. Binding tasks run the binding handshake, so each name is
/// observably resolvable before the plan moves on.
pub enum EngineTask {
    /// Bind a define name as a zero-valued global.
    BindDefine(String),
    /// Bind the message-channel host object under its well-known name.
    BindMessageObject,
    /// Map the virtual host name to a local folder for same-origin loads.
    MapHostFolder(String, String),
    /// Navigate to the primary URL; nothing of the page runs before this.
    Navigate(String),
}

/// The cell registered for a define name: the zero-valued integer global
/// that page script can test for.
pub fn define_cell() -> (c: ValueCell)
    ensures
        c.payload() == Payload::Integer(0),
        c.is_owned(),
{
    ValueCell::from_integer(0)
}

/// The name under which the message-channel host object is bound.
pub fn message_object_name() -> (r: String)
    ensures
        r@ == "functioncall"@,
{
    String::from_str("functioncall")
}

/// The binding tasks for the define names, one each, taken from the back
/// of the list.
pub open spec fn spec_inject_defines(defines: Seq<String>) -> Seq<EngineTask> {
    defines.reverse().map_values(|s: String| EngineTask::BindDefine(s))
}

/// The host-mapping task, present exactly when both the virtual host name
/// and the folder path were given.
pub open spec fn spec_host_mapping(host_name: Option<String>, folder_path: Option<String>) -> Seq<
    EngineTask,
> {
    match (host_name, folder_path) {
        (Some(h), Some(f)) => seq![EngineTask::MapHostFolder(h, f)],
        _ => Seq::empty(),
    }
}

/// The whole open plan: every define bound, then the message-channel
/// object bound, then the optional host mapping, then the navigation.
pub open spec fn spec_initialize_controller(init: InitializeState) -> Seq<EngineTask> {
    spec_inject_defines(init.defines@) + seq![EngineTask::BindMessageObject] + spec_host_mapping(
        init.host_name,
        init.folder_path,
    ) + seq![EngineTask::Navigate(init.url_str)]
}

/// The plan without the message-channel object, for an embedding that
/// drains no queue.
pub open spec fn spec_initialize_controller_nobind(init: InitializeState) -> Seq<EngineTask> {
    spec_inject_defines(init.defines@) + spec_host_mapping(init.host_name, init.folder_path)
        + seq![EngineTask::Navigate(init.url_str)]
}

/// Lays out one binding task per define name. The names are taken from the
/// back of the list, so they are bound in reverse order of arrival.
pub fn inject_defines(defines: Vec<String>) -> (tasks: Vec<EngineTask>)
    ensures
        tasks@ == spec_inject_defines(defines@),
{
    let ghost all = defines@;
    let mut rest = defines;
    let mut tasks: Vec<EngineTask> = Vec::new();
    while rest.len() > 0
        invariant
            rest@ == all.take(rest@.len() as int),
            tasks@.len() == all.len() - rest@.len(),
            forall|i: int|
                0 <= i < tasks@.len() ==> tasks@[i] == EngineTask::BindDefine(
                    all[all.len() - 1 - i],
                ),
        decreases rest@.len(),
    {
        let name = rest.pop().unwrap();
        proof {
            assert(rest@ =~= all.take(rest@.len() as int));
        }
        tasks.push(EngineTask::BindDefine(name));
    }
    proof {
        assert(tasks@ =~= spec_inject_defines(all));
    }
    tasks
}

/// Builds the open plan for one embedded instance: the defines, the
/// message-channel host object, the optional virtual-host mapping, and the
/// navigation, in that order. The engine thread performs the tasks front
/// to back, each binding confirmed by the handshake before the next task
/// runs.
pub fn initialize_controller(init: InitializeState) -> (plan: Vec<EngineTask>)
    ensures
        plan@ == spec_initialize_controller(init),
{
    let InitializeState { url_str, host_name, folder_path, defines } = init;
    let mut plan = inject_defines(defines);
    plan.push(EngineTask::BindMessageObject);
    match (host_name, folder_path) {
        (Some(h), Some(f)) => {
            plan.push(EngineTask::MapHostFolder(h, f));
        },
        _ => {},
    }
    plan.push(EngineTask::Navigate(url_str));
    proof {
        assert(plan@ =~= spec_initialize_controller(init));
    }
    plan
}

/// Builds the open plan without the message-channel object.
pub fn initialize_controller_nobind(init: InitializeState) -> (plan: Vec<EngineTask>)
    ensures
        plan@ == spec_initialize_controller_nobind(init),
{
    let InitializeState { url_str, host_name, folder_path, defines } = init;
    let mut plan = inject_defines(defines);
    match (host_name, folder_path) {
        (Some(h), Some(f)) => {
            plan.push(EngineTask::MapHostFolder(h, f));
        },
        _ => {},
    }
    plan.push(EngineTask::Navigate(url_str));
    proof {
        assert(plan@ =~= spec_initialize_controller_nobind(init));
    }
    plan
}

/// Every define is bound strictly before the navigation task runs, so a
/// define name is resolvable as a zero-valued global in script before any
/// of the primary URL's page code.
pub proof fn lemma_defines_before_navigate(init: InitializeState, i: int, j: int)
    requires
        0 <= i < spec_initialize_controller(init).len(),
        0 <= j < spec_initialize_controller(init).len(),
        spec_initialize_controller(init)[i] is BindDefine,
        spec_initialize_controller(init)[j] is Navigate,
    ensures
        i < j,
{
    let defines = spec_inject_defines(init.defines@);
    let plan = spec_initialize_controller(init);
    assert(i < defines.len());
    assert(j >= defines.len() + 1 + spec_host_mapping(init.host_name, init.folder_path).len());
}

/// The fields after splitting the `;`-delimited define list: the completed
/// nonempty fields so far, and the trailing field still open.
pub open spec fn split_state(s: Seq<char>) -> (Seq<Seq<char>>, Seq<char>)
    decreases s.len(),
{
    if s.len() == 0 {
        (Seq::empty(), Seq::empty())
    } else {
        let (done, cur) = split_state(s.drop_last());
        if s.last() == ';' {
            if cur.len() == 0 {
                (done, Seq::empty())
            } else {
                (done.push(cur), Seq::empty())
            }
        } else {
            (done, cur.push(s.last()))
        }
    }
}

/// The define names in a `;`-delimited list: the nonempty fields, in
/// order.
pub open spec fn spec_split_defines(s: Seq<char>) -> Seq<Seq<char>> {
    let (done, cur) = split_state(s);
    if cur.len() == 0 {
        done
    } else {
        done.push(cur)
    }
}

/// Splits the `;`-delimited define list into its nonempty names.
pub fn split_defines(s: &str) -> (r: Vec<String>)
    ensures
        r@.map_values(|x: String| x@) == spec_split_defines(s@),
{
    let len = s.unicode_len();
    let mut done: Vec<String> = Vec::new();
    let mut cur: Vec<char> = Vec::new();
    let mut i: usize = 0;
    proof {
        assert(s@.take(0) =~= Seq::<char>::empty());
        assert(done@.map_values(|x: String| x@) =~~= split_state(s@.take(0)).0);
    }
    while i < len
        invariant
            0 <= i <= len,
            len == s@.len(),
            done@.map_values(|x: String| x@) == split_state(s@.take(i as int)).0,
            cur@ == split_state(s@.take(i as int)).1,
        decreases len - i,
    {
        let c = s.get_char(i);
        proof {
            assert(s@.take(i as int + 1).drop_last() =~= s@.take(i as int));
            assert(s@.take(i as int + 1).last() == s@[i as int]);
        }
        if c == ';' {
            if cur.len() > 0 {
                let field = cur;
                cur = Vec::new();
                done.push(chars_to_string(field));
                proof {
                    assert(done@.map_values(|x: String| x@) =~~= split_state(
                        s@.take(i as int + 1),
                    ).0);
                }
            }
        } else {
            cur.push(c);
        }
        i = i + 1;
    }
    proof {
        assert(s@.take(len as int) =~= s@);
    }
    if cur.len() > 0 {
        done.push(chars_to_string(cur));
        proof {
            assert(done@.map_values(|x: String| x@) =~~= spec_split_defines(s@));
        }
    }
    done
}

/// What one optional string parameter of the open request decoded to:
/// either it was absent or empty or malformed — all treated as not given —
/// or it decoded to exactly the text whose code units were handed in.
pub open spec fn decoded_option(units: Option<Seq<u16>>, r: Option<String>) -> bool {
    match units {
        Some(u) => {
            if u.len() > 0 && valid_utf16(u) {
                r matches Some(s) && utf16_encode(s@) == u
            } else {
                r is None
            }
        },
        None => r is None,
    }
}

/// Decodes the parameters of one open request from their code-unit
/// buffers. The primary URL is required: a missing, empty or malformed URL
/// buffer yields no request, and the caller answers with the null handle.
/// The optional host name and folder path are taken only when well formed
/// and nonempty, and the define list decodes to its nonempty `;`-separated
/// names — absent or malformed, it decodes to no defines.
pub fn decode_open_request(
    url: &Vec<u16>,
    host_name: Option<&Vec<u16>>,
    folder_path: Option<&Vec<u16>>,
    defines: Option<&Vec<u16>>,
) -> (r: Option<InitializeState>)
    ensures
        r is Some <==> url@.len() > 0 && valid_utf16(url@),
        r matches Some(init) ==> ({
            &&& utf16_encode(init.url_str@) == url@
            &&& decoded_option(
                match host_name {
                    Some(u) => Some(u@),
                    None => None,
                },
                init.host_name,
            )
            &&& decoded_option(
                match folder_path {
                    Some(u) => Some(u@),
                    None => None,
                },
                init.folder_path,
            )
            &&& match defines {
                Some(u) => {
                    if u@.len() > 0 && valid_utf16(u@) {
                        exists|s: Seq<char>|
                            utf16_encode(s) == u@ && init.defines@.map_values(|x: String| x@)
                                == spec_split_defines(s)
                    } else {
                        init.defines@.len() == 0
                    }
                },
                None => init.defines@.len() == 0,
            }
        }),
{
    if url.len() == 0 {
        return None;
    }
    let url_str = match from_utf16(url) {
        Some(s) => s,
        None => {
            return None;
        },
    };
    let host_name = decode_optional_text(host_name);
    let folder_path = decode_optional_text(folder_path);
    let defines = match defines {
        Some(units) => {
            if units.len() == 0 {
                Vec::new()
            } else {
                match from_utf16(units) {
                    Some(list) => split_defines(list.as_str()),
                    None => Vec::new(),
                }
            }
        },
        None => Vec::new(),
    };
    Some(InitializeState { url_str, host_name, folder_path, defines })
}

/// Decodes one optional string parameter; absent, empty and malformed
/// buffers all count as not given.
fn decode_optional_text(units: Option<&Vec<u16>>) -> (r: Option<String>)
    ensures
        decoded_option(
            match units {
                Some(u) => Some(u@),
                None => None,
            },
            r,
        ),
{
    match units {
        Some(u) => {
            if u.len() == 0 {
                None
            } else {
                from_utf16(u)
            }
        },
        None => None,
    }
}

/// What a navigation attempt is allowed to be: user-driven back/forward
/// traversal and reloads are blocked; everything else proceeds.
#[derive(Clone, Copy, PartialEq, Eq, Structural, Debug)]
pub enum NavigationKind {
    NewDocument,
    BackOrForward,
    Reload,
}

/// True exactly for the navigation kinds the embedding cancels: history
/// traversal and reload.
pub fn navigation_blocked(kind: NavigationKind) -> (b: bool)
    ensures
        b <==> kind is BackOrForward || kind is Reload,
{
    match kind {
        NavigationKind::BackOrForward => true,
        NavigationKind::Reload => true,
        NavigationKind::NewDocument => false,
    }
}

/// The launch flags the engine reads once, at process start.
pub open spec fn default_browser_arguments() -> Seq<char> {
    "--autoplay-policy=no-user-gesture-required --unlimited-storage"@
}

/// The process-wide engine launch configuration. The argument string is
/// read once, when the engine starts: setting it afterwards has no effect,
/// which this model makes explicit.
pub struct EngineEnvironment {
    arguments: Option<String>,
    started: bool,
}

impl EngineEnvironment {
    pub closed spec fn arguments_set(self) -> bool {
        self.arguments is Some
    }

    pub closed spec fn arguments_view(self) -> Seq<char> {
        self.arguments->0@
    }

    pub closed spec fn started(self) -> bool {
        self.started
    }

    pub fn new() -> (e: EngineEnvironment)
        ensures
            !e.arguments_set(),
            !e.started(),
    {
        EngineEnvironment { arguments: None, started: false }
    }

    /// Sets the default launch flags. Applied only before the engine has
    /// started; afterwards the call changes nothing.
    pub fn init_env(&mut self) -> (applied: bool)
        ensures
            applied <==> !old(self).started(),
            final(self).started() == old(self).started(),
            applied ==> final(self).arguments_set() && final(self).arguments_view()
                == default_browser_arguments(),
            !applied ==> *final(self) == *old(self),
    {
        if self.started {
            return false;
        }
        self.arguments = Some(
            String::from_str("--autoplay-policy=no-user-gesture-required --unlimited-storage"),
        );
        true
    }

    /// Marks the engine started: the first `open` passes this point, and
    /// the argument string is frozen from here on.
    pub fn mark_started(&mut self)
        ensures
            final(self).started(),
            final(self).arguments_set() == old(self).arguments_set(),
            old(self).arguments_set() ==> final(self).arguments_view() == old(
                self,
            ).arguments_view(),
    {
        self.started = true;
    }

    /// Whether the engine has started and the arguments are frozen.
    pub fn has_started(&self) -> (b: bool)
        ensures
            b == self.started(),
    {
        self.started
    }

    /// The argument string to hand the engine at startup, if one was set.
    pub fn arguments(&self) -> (r: Option<&String>)
        ensures
            r is Some <==> self.arguments_set(),
            r matches Some(a) ==> a@ == self.arguments_view(),
    {
        match &self.arguments {
            Some(a) => Some(a),
            None => None,
        }
    }
}

} // verus!
