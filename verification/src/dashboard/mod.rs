//! The dashboard: browsing kernels, contexts and seats, and taking a seat.

pub mod seat_selector;

use vstd::prelude::*;
use vstd::string::*;
use crate::strutil;

verus! {

/// A kernel that can be joined.
#[derive(Debug)]
pub struct KernelInfo {
    pub id: String,
    pub name: String,
    pub user_count: usize,
}

/// A context within a kernel.
#[derive(Debug)]
pub struct Context {
    pub name: String,
}

/// What tells a seat from all others.
#[derive(Debug)]
pub struct SeatId {
    pub nick: String,
    pub instance: String,
    pub kernel: String,
    pub context: String,
}

/// A seat as mathematical values.
#[verifier::ext_equal]
pub struct SeatView {
    pub nick: Seq<char>,
    pub instance: Seq<char>,
    pub kernel: Seq<char>,
    pub context: Seq<char>,
}

impl SeatId {
    /// The seat as mathematical values.
    pub open spec fn view(&self) -> SeatView {
        SeatView {
            nick: self.nick@,
            instance: self.instance@,
            kernel: self.kernel@,
            context: self.context@,
        }
    }
}

/// A seat taken by the user.
#[derive(Debug)]
pub struct SeatInfo {
    pub id: SeatId,
}

/// Which screen is shown.
#[derive(Debug, Clone, Copy, PartialEq, Eq, Structural)]
pub enum AppScreen {
    Dashboard,
    Conversation,
}

/// State for the dashboard.
#[derive(Debug)]
pub struct DashboardState {
    /// Available kernels.
    pub kernels: Vec<KernelInfo>,
    /// Currently selected kernel index.
    pub selected_kernel: Option<usize>,
    /// Contexts in the selected kernel.
    pub contexts: Vec<Context>,
    /// Currently selected context index.
    pub selected_context: Option<usize>,
    /// The user's active seats across all kernels.
    pub my_seats: Vec<SeatInfo>,
    /// Current seat, if any.
    pub current_seat: Option<SeatInfo>,
}

/// What the connection reports.
#[derive(Debug, Clone, Copy, PartialEq, Eq, Structural)]
pub enum ConnectionStatus {
    Connected,
    Disconnected,
    /// Any step in between.
    Pending,
}

/// What to do about a connection report.
#[derive(Debug, Clone, Copy, PartialEq, Eq, Structural)]
pub enum StatusEffect {
    Nothing,
    /// Ask for the lists of kernels and contexts, and for where we are.
    RequestLists,
    /// Show the dashboard.
    ShowDashboard,
}

/// A result of an earlier request. Lists carry the generation of the connection that they were
/// asked over.
#[derive(Debug)]
pub enum RpcResult {
    KernelList { kernels: Vec<KernelInfo>, generation: u64 },
    ContextList { contexts: Vec<Context>, generation: u64 },
    MySeatsList { seats: Vec<SeatInfo>, generation: u64 },
    ContextJoined { seat: SeatInfo, document_id: String },
    ContextLeft,
    /// A result that does not concern the dashboard.
    Other,
}

/// What to do about a result.
#[derive(Debug)]
pub enum ResultEffect {
    Nothing,
    /// Show the conversation of a document, creating it first where it is not known yet.
    OpenConversation { document_id: String },
    /// Show the dashboard.
    ShowDashboard,
}

/// A request for a connection to a kernel and context.
#[derive(Debug)]
pub struct SpawnRequest {
    pub kernel_id: String,
    pub context_name: String,
    pub instance: String,
}

impl SpawnRequest {
    /// The request asks for this.
    pub open spec fn asks(
        &self,
        kernel_id: Seq<char>,
        context_name: Seq<char>,
        instance: Seq<char>,
    ) -> bool {
        self.kernel_id@ == kernel_id && self.context_name@ == context_name && self.instance@
            == instance
    }
}

impl Default for DashboardState {
    fn default() -> (state: Self)
        ensures
            state.kernels@.len() == 0,
            state.selected_kernel is None,
            state.contexts@.len() == 0,
            state.selected_context is None,
            state.my_seats@.len() == 0,
            state.current_seat is None,
    {
        DashboardState {
            kernels: Vec::new(),
            selected_kernel: None,
            contexts: Vec::new(),
            selected_context: None,
            my_seats: Vec::new(),
            current_seat: None,
        }
    }
}

/// The first of a list, if there is one.
pub open spec fn first_of(len: nat) -> Option<usize> {
    if len > 0 {
        Some(0)
    } else {
        None
    }
}

/// A choice, or the first of a list where there is none.
pub open spec fn chosen_or_first(choice: Option<usize>, len: nat) -> Option<usize> {
    match choice {
        Some(i) => Some(i),
        None => first_of(len),
    }
}

impl DashboardState {
    /// The selected kernel, if the selection stands for one.
    pub open spec fn kernel(&self) -> Option<KernelInfo> {
        match self.selected_kernel {
            Some(i) => if i < self.kernels@.len() {
                Some(self.kernels@[i as int])
            } else {
                None
            },
            None => None,
        }
    }

    /// The selected context, if the selection stands for one.
    pub open spec fn context(&self) -> Option<Context> {
        match self.selected_context {
            Some(i) => if i < self.contexts@.len() {
                Some(self.contexts@[i as int])
            } else {
                None
            },
            None => None,
        }
    }

    /// Get the selected kernel, if any.
    pub fn selected_kernel(&self) -> (kernel: Option<&KernelInfo>)
        ensures
            match kernel {
                Some(k) => self.kernel() == Some(*k),
                None => self.kernel() is None,
            },
    {
        match self.selected_kernel {
            Some(i) => if i < self.kernels.len() {
                Some(&self.kernels[i])
            } else {
                None
            },
            None => None,
        }
    }

    /// Get the selected context, if any.
    pub fn selected_context(&self) -> (context: Option<&Context>)
        ensures
            match context {
                Some(c) => self.context() == Some(*c),
                None => self.context() is None,
            },
    {
        match self.selected_context {
            Some(i) => if i < self.contexts.len() {
                Some(&self.contexts[i])
            } else {
                None
            },
            None => None,
        }
    }

    /// Take in a connection report: a fresh connection asks for its lists; a lost one leaves
    /// nothing to show.
    pub fn on_status(&mut self, status: ConnectionStatus) -> (effect: StatusEffect)
        ensures
            match status {
                ConnectionStatus::Connected => effect == StatusEffect::RequestLists
                    && *final(self) == *old(self),
                ConnectionStatus::Disconnected => {
                    &&& effect == StatusEffect::ShowDashboard
                    &&& final(self).kernels@.len() == 0
                    &&& final(self).contexts@.len() == 0
                    &&& final(self).my_seats@.len() == 0
                    &&& final(self).current_seat is None
                    &&& final(self).selected_kernel == old(self).selected_kernel
                    &&& final(self).selected_context == old(self).selected_context
                },
                ConnectionStatus::Pending => effect == StatusEffect::Nothing && *final(self)
                    == *old(self),
            },
    {
        match status {
            ConnectionStatus::Connected => StatusEffect::RequestLists,
            ConnectionStatus::Disconnected => {
                self.kernels = Vec::new();
                self.contexts = Vec::new();
                self.my_seats = Vec::new();
                self.current_seat = None;
                StatusEffect::ShowDashboard
            },
            ConnectionStatus::Pending => StatusEffect::Nothing,
        }
    }

    /// Take in a result. A list that was asked over another connection counts for nothing.
    pub fn on_result(&mut self, result: RpcResult, current_gen: u64) -> (effect: ResultEffect)
        ensures
            match result {
                RpcResult::KernelList { kernels, generation } => {
                    &&& effect is Nothing
                    &&& if generation == current_gen {
                        &&& final(self).kernels == kernels
                        &&& final(self).selected_kernel == chosen_or_first(
                            old(self).selected_kernel,
                            kernels@.len(),
                        )
                        &&& final(self).contexts == old(self).contexts
                        &&& final(self).selected_context == old(self).selected_context
                        &&& final(self).my_seats == old(self).my_seats
                        &&& final(self).current_seat == old(self).current_seat
                    } else {
                        *final(self) == *old(self)
                    }
                },
                RpcResult::ContextList { contexts, generation } => {
                    &&& effect is Nothing
                    &&& if generation == current_gen {
                        &&& final(self).contexts == contexts
                        &&& final(self).selected_context == first_of(contexts@.len())
                        &&& final(self).kernels == old(self).kernels
                        &&& final(self).selected_kernel == old(self).selected_kernel
                        &&& final(self).my_seats == old(self).my_seats
                        &&& final(self).current_seat == old(self).current_seat
                    } else {
                        *final(self) == *old(self)
                    }
                },
                RpcResult::MySeatsList { seats, generation } => {
                    &&& effect is Nothing
                    &&& if generation == current_gen {
                        *final(self) == (DashboardState { my_seats: seats, ..*old(self) })
                    } else {
                        *final(self) == *old(self)
                    }
                },
                RpcResult::ContextJoined { seat, document_id } => {
                    &&& *final(self) == (DashboardState { current_seat: Some(seat), ..*old(self) })
                    &&& effect == (ResultEffect::OpenConversation { document_id })
                },
                RpcResult::ContextLeft => {
                    &&& *final(self) == (DashboardState { current_seat: None, ..*old(self) })
                    &&& effect is ShowDashboard
                },
                RpcResult::Other => *final(self) == *old(self) && effect is Nothing,
            },
    {
        match result {
            RpcResult::KernelList { kernels, generation } => {
                if generation == current_gen {
                    self.kernels = kernels;
                    if self.selected_kernel.is_none() && self.kernels.len() > 0 {
                        self.selected_kernel = Some(0);
                    }
                }
                ResultEffect::Nothing
            },
            RpcResult::ContextList { contexts, generation } => {
                if generation == current_gen {
                    self.contexts = contexts;
                    if self.contexts.len() > 0 {
                        self.selected_context = Some(0);
                    } else {
                        self.selected_context = None;
                    }
                }
                ResultEffect::Nothing
            },
            RpcResult::MySeatsList { seats, generation } => {
                if generation == current_gen {
                    self.my_seats = seats;
                }
                ResultEffect::Nothing
            },
            RpcResult::ContextJoined { seat, document_id } => {
                self.current_seat = Some(seat);
                ResultEffect::OpenConversation { document_id }
            },
            RpcResult::ContextLeft => {
                self.current_seat = None;
                ResultEffect::ShowDashboard
            },
            RpcResult::Other => ResultEffect::Nothing,
        }
    }

    /// Select a kernel: its contexts are to be listed anew, over a connection to its lobby.
    pub fn select_kernel(&mut self, index: usize) -> (request: Option<SpawnRequest>)
        ensures
            final(self).kernels == old(self).kernels,
            final(self).selected_kernel == Some(index),
            final(self).contexts@.len() == 0,
            final(self).selected_context is None,
            final(self).my_seats == old(self).my_seats,
            final(self).current_seat == old(self).current_seat,
            match request {
                Some(r) => index < old(self).kernels@.len() && r.asks(
                    old(self).kernels@[index as int].id@,
                    "lobby"@,
                    "bevy-client"@,
                ),
                None => index >= old(self).kernels@.len(),
            },
    {
        self.selected_kernel = Some(index);
        self.contexts = Vec::new();
        self.selected_context = None;
        if index < self.kernels.len() {
            Some(
                SpawnRequest {
                    kernel_id: self.kernels[index].id.clone(),
                    context_name: "lobby".to_owned(),
                    instance: "bevy-client".to_owned(),
                },
            )
        } else {
            None
        }
    }

    /// Select a context.
    pub fn select_context(&mut self, index: usize)
        ensures
            *final(self) == (DashboardState { selected_context: Some(index), ..*old(self) }),
    {
        self.selected_context = Some(index);
    }

    /// Take a seat in the selected kernel and context, if both are selected.
    pub fn take_seat(&self, instance: &str) -> (request: Option<SpawnRequest>)
        ensures
            match (self.kernel(), self.context()) {
                (Some(kernel), Some(context)) => request matches Some(r) && r.asks(
                    kernel.id@,
                    context.name@,
                    instance@,
                ),
                _ => request is None,
            },
    {
        match (self.selected_kernel(), self.selected_context()) {
            (Some(kernel), Some(context)) => Some(
                SpawnRequest {
                    kernel_id: kernel.id.clone(),
                    context_name: context.name.clone(),
                    instance: instance.to_owned(),
                },
            ),
            _ => None,
        }
    }

    /// Handle Enter on the dashboard: without a selection the first kernel and context are
    /// meant; then a seat is taken there.
    pub fn on_enter(&mut self, screen: AppScreen, instance: &str) -> (request: Option<SpawnRequest>)
        ensures
            if screen == AppScreen::Dashboard {
                &&& *final(self) == (DashboardState {
                    selected_kernel: chosen_or_first(
                        old(self).selected_kernel,
                        old(self).kernels@.len(),
                    ),
                    selected_context: chosen_or_first(
                        old(self).selected_context,
                        old(self).contexts@.len(),
                    ),
                    ..*old(self)
                })
                &&& match (final(self).kernel(), final(self).context()) {
                    (Some(kernel), Some(context)) => request matches Some(r) && r.asks(
                        kernel.id@,
                        context.name@,
                        instance@,
                    ),
                    _ => request is None,
                }
            } else {
                *final(self) == *old(self) && request is None
            },
    {
        if screen != AppScreen::Dashboard {
            return None;
        }
        if self.selected_kernel.is_none() && self.kernels.len() > 0 {
            self.selected_kernel = Some(0);
        }
        if self.selected_context.is_none() && self.contexts.len() > 0 {
            self.selected_context = Some(0);
        }
        self.take_seat(instance)
    }
}

/// Enter with nothing selected, where there are kernels and contexts, takes a seat in the first
/// of each.
pub proof fn law_enter_defaults_to_the_first(state: DashboardState)
    requires
        state.kernels@.len() > 0,
        state.contexts@.len() > 0,
        state.selected_kernel == chosen_or_first(None, state.kernels@.len()),
        state.selected_context == chosen_or_first(None, state.contexts@.len()),
    ensures
        state.kernel() == Some(state.kernels@[0]),
        state.context() == Some(state.contexts@[0]),
{
}

/// The document of the context that a connection is in; the lobby has none.
pub fn joined_document(kernel_id: &str, context_name: &str) -> (document: Option<String>)
    ensures
        match document {
            Some(d) => context_name@ != "lobby"@ && d@ == kernel_id@ + "@"@ + context_name@,
            None => context_name@ == "lobby"@,
        },
{
    if strutil::same(context_name, "lobby") {
        None
    } else {
        Some(strutil::enclosed(kernel_id, "@", context_name))
    }
}

/// The instance name of a user: by the first of two names that is known, or `default`.
pub fn instance_name(user: Option<&str>, username: Option<&str>) -> (name: String)
    ensures
        name@ == (match (user, username) {
            (Some(u), _) => u@,
            (None, Some(u)) => u@,
            (None, None) => "default"@,
        }),
{
    match user {
        Some(u) => u.to_owned(),
        None => match username {
            Some(u) => u.to_owned(),
            None => "default".to_owned(),
        },
    }
}

/// How a kernel shows in its list.
pub fn kernel_label(kernel: &KernelInfo) -> (label: String)
    ensures
        label@ == kernel.name@ + " ("@ + strutil::digits_of(kernel.user_count as nat)
            + " users)"@,
{
    let count = strutil::decimal(kernel.user_count);
    let mut label: String = kernel.name.clone();
    label.append(" (");
    label.append(count.as_str());
    label.append(" users)");
    label
}

/// The two lines that show a seat in its list: who, and where.
pub fn seat_lines(seat: &SeatId) -> (lines: (String, String))
    ensures
        lines.0@ == "@"@ + seat.nick@ + ":"@ + seat.instance@,
        lines.1@ == "  :"@ + seat.context@ + "@"@ + seat.kernel@,
{
    let mut who = strutil::enclosed("@", seat.nick.as_str(), ":");
    who.append(seat.instance.as_str());
    let mut place = strutil::enclosed("  :", seat.context.as_str(), "@");
    place.append(seat.kernel.as_str());
    (who, place)
}

/// A choice that was made stays; without one the first of a list is meant, if there is one. A
/// choice stands for the entry at its place, and beyond the list for nothing.
pub proof fn law_choices_stand_for_their_entries(state: DashboardState, i: usize, len: nat)
    ensures
        chosen_or_first(Some(i), len) == Some(i),
        len > 0 ==> chosen_or_first(None, len) == Some(0usize) && first_of(len) == Some(0usize),
        len == 0 ==> chosen_or_first(None, len) is None && first_of(len) is None,
        state.selected_kernel is None ==> state.kernel() is None,
        state.selected_kernel == Some(i) && i < state.kernels@.len() ==> state.kernel() == Some(
            state.kernels@[i as int],
        ),
        state.selected_kernel == Some(i) && i >= state.kernels@.len() ==> state.kernel() is None,
        state.selected_context is None ==> state.context() is None,
        state.selected_context == Some(i) && i < state.contexts@.len() ==> state.context() == Some(
            state.contexts@[i as int],
        ),
        state.selected_context == Some(i) && i >= state.contexts@.len() ==> state.context() is None,
{
}

} // verus!
