//! The decisions of the dashboard itself: its sections, the start-up and
//! sign-in screens, and the two-step confirmation of destructive actions.

use vstd::prelude::*;
use crate::broker::{BrokerAccount, TokenInfo};

verus! {

/// A section of the dashboard.
#[derive(PartialEq, Eq, Structural, Clone, Copy, Debug)]
pub enum Section {
    Status,
    Cache,
    Applications,
    Users,
    Groups,
    IdMap,
    Credentials,
    PamConfig,
    AuthTest,
    Breakglass,
}

/// The title of a section in the navigation.
pub open spec fn section_label(s: Section) -> Seq<char> {
    match s {
        Section::Status => "Status & System"@,
        Section::Cache => "Cache"@,
        Section::Applications => "Applications"@,
        Section::Users => "Users"@,
        Section::Groups => "Groups"@,
        Section::IdMap => "ID Mapping"@,
        Section::Credentials => "Credentials"@,
        Section::PamConfig => "PAM Config"@,
        Section::AuthTest => "Auth Test"@,
        Section::Breakglass => "Offline Breakglass"@,
    }
}

/// The icon of a section in the navigation.
pub open spec fn section_icon(s: Section) -> Seq<char> {
    match s {
        Section::Status => "◉"@,
        Section::Cache => "⟳"@,
        Section::Applications => "⊞"@,
        Section::Users => "◎"@,
        Section::Groups => "◈"@,
        Section::IdMap => "⇄"@,
        Section::Credentials => "◆"@,
        Section::PamConfig => "≡"@,
        Section::AuthTest => "⊙"@,
        Section::Breakglass => "⚑"@,
    }
}

/// The sections whose actions need administrator rights, which carry a
/// badge and a notice.
pub open spec fn section_needs_admin(s: Section) -> bool {
    match s {
        Section::Cache | Section::IdMap | Section::Credentials | Section::PamConfig
        | Section::Breakglass => true,
        _ => false,
    }
}

impl Section {
    /// The title of the section.
    pub fn label(&self) -> (r: &'static str)
        ensures
            r@ == section_label(*self),
    {
        match self {
            Section::Status => "Status & System",
            Section::Cache => "Cache",
            Section::Applications => "Applications",
            Section::Users => "Users",
            Section::Groups => "Groups",
            Section::IdMap => "ID Mapping",
            Section::Credentials => "Credentials",
            Section::PamConfig => "PAM Config",
            Section::AuthTest => "Auth Test",
            Section::Breakglass => "Offline Breakglass",
        }
    }

    /// The icon of the section.
    pub fn icon(&self) -> (r: &'static str)
        ensures
            r@ == section_icon(*self),
    {
        match self {
            Section::Status => "◉",
            Section::Cache => "⟳",
            Section::Applications => "⊞",
            Section::Users => "◎",
            Section::Groups => "◈",
            Section::IdMap => "⇄",
            Section::Credentials => "◆",
            Section::PamConfig => "≡",
            Section::AuthTest => "⊙",
            Section::Breakglass => "⚑",
        }
    }

    /// Whether the section's actions need administrator rights.
    pub fn requires_admin(&self) -> (r: bool)
        ensures
            r == section_needs_admin(*self),
    {
        match self {
            Section::Cache | Section::IdMap | Section::Credentials | Section::PamConfig
            | Section::Breakglass => true,
            _ => false,
        }
    }
}

/// The navigation: each group's heading and its sections, top to bottom.
pub open spec fn navigation_spec() -> Seq<(Seq<char>, Seq<Section>)> {
    seq![
        ("SYSTEM"@, seq![Section::Status]),
        ("MANAGEMENT"@, seq![Section::Applications, Section::Users, Section::Groups]),
        ("IDENTITY"@, seq![Section::IdMap]),
        ("SECURITY"@, seq![Section::Credentials, Section::PamConfig, Section::Breakglass]),
        ("DIAGNOSTICS"@, seq![Section::Cache, Section::AuthTest]),
    ]
}

/// The section that the dashboard opens on.
pub fn initial_section() -> (s: Section)
    ensures
        s == Section::Status,
{
    Section::Status
}

/// The navigation of the dashboard: its groups of sections, top to bottom.
pub fn navigation() -> (r: Vec<(&'static str, Vec<Section>)>)
    ensures
        r@.len() == navigation_spec().len(),
        forall|i: int|
            0 <= i < r@.len() ==> (#[trigger] r@[i]).0@ == navigation_spec()[i].0 && r@[i].1@
                == navigation_spec()[i].1,
{
    let r = vec![
        ("SYSTEM", vec![Section::Status]),
        ("MANAGEMENT", vec![Section::Applications, Section::Users, Section::Groups]),
        ("IDENTITY", vec![Section::IdMap]),
        ("SECURITY", vec![Section::Credentials, Section::PamConfig, Section::Breakglass]),
        ("DIAGNOSTICS", vec![Section::Cache, Section::AuthTest]),
    ];
    assert(r@[1].1@ =~= seq![Section::Applications, Section::Users, Section::Groups]);
    assert(r@[3].1@ =~= seq![Section::Credentials, Section::PamConfig, Section::Breakglass]);
    assert(r@[4].1@ =~= seq![Section::Cache, Section::AuthTest]);
    assert(r@[0].1@ =~= seq![Section::Status]);
    assert(r@[2].1@ =~= seq![Section::IdMap]);
    r
}

/// The sections in the order in which the navigation lists them.
pub open spec fn navigation_order() -> Seq<Section> {
    navigation_spec().map_values(|g: (Seq<char>, Seq<Section>)| g.1).flatten()
}

/// Every section of the dashboard is reachable from the navigation, and
/// none is listed twice.
pub proof fn lemma_navigation_lists_each_section_once(s: Section)
    ensures
        navigation_order().contains(s),
        navigation_order().no_duplicates(),
{
    let order = seq![
        Section::Status,
        Section::Applications,
        Section::Users,
        Section::Groups,
        Section::IdMap,
        Section::Credentials,
        Section::PamConfig,
        Section::Breakglass,
        Section::Cache,
        Section::AuthTest,
    ];
    let groups = navigation_spec().map_values(|g: (Seq<char>, Seq<Section>)| g.1);
    assert(groups =~= seq![
        seq![Section::Status],
        seq![Section::Applications, Section::Users, Section::Groups],
        seq![Section::IdMap],
        seq![Section::Credentials, Section::PamConfig, Section::Breakglass],
        seq![Section::Cache, Section::AuthTest],
    ]);
    reveal_with_fuel(Seq::<Seq<Section>>::flatten, 6);
    assert(navigation_order() =~= order);
    let k: int = match s {
        Section::Status => 0,
        Section::Applications => 1,
        Section::Users => 2,
        Section::Groups => 3,
        Section::IdMap => 4,
        Section::Credentials => 5,
        Section::PamConfig => 6,
        Section::Breakglass => 7,
        Section::Cache => 8,
        Section::AuthTest => 9,
    };
    assert(order[k] == s);
}

/// Whether a press of a destructive action's button runs it, and whether a
/// confirmation is pending afterwards: an action that needs confirmation
/// only arms the confirmation on the first press, and runs on the next.
pub open spec fn confirm_press_spec(pending: bool, needs_confirmation: bool) -> (bool, bool) {
    if needs_confirmation && !pending {
        (false, true)
    } else {
        (true, false)
    }
}

/// A destructive action runs only on a press made while its confirmation
/// was pending, or when it needs none, and a press that runs it leaves no
/// confirmation pending; from a fresh state, an action that needs
/// confirmation takes exactly two presses.
pub proof fn lemma_confirmation(pending: bool, needs_confirmation: bool)
    ensures
        confirm_press_spec(pending, needs_confirmation).0 ==> (!needs_confirmation || pending),
        confirm_press_spec(pending, needs_confirmation).0 ==> !confirm_press_spec(
            pending,
            needs_confirmation,
        ).1,
        needs_confirmation ==> !confirm_press_spec(false, needs_confirmation).0
            && confirm_press_spec(confirm_press_spec(false, needs_confirmation).1, needs_confirmation).0,
{
}

/// A press of a destructive action's button: (does it run, is a
/// confirmation pending after it).
pub fn confirm_press(pending: bool, needs_confirmation: bool) -> (r: (bool, bool))
    ensures
        r == confirm_press_spec(pending, needs_confirmation),
{
    if needs_confirmation && !pending {
        (false, true)
    } else {
        (true, false)
    }
}

/// The screen that the application shows.
pub enum AppView {
    /// The sign-in page; `checking` while a saved session is tried.
    Login { checking: bool },
    /// Launched as root, which cannot reach the session bus.
    RootError,
    /// Signed in.
    Dashboard { name: String, username: String, access_token: String },
}

/// Where the start-up stands.
pub enum StartupStage {
    Start,
    CheckingRoot,
    ListingAccounts,
    AcquiringToken,
    Done,
}

/// What happened since the last start-up step.
pub enum StartupEvent {
    /// The start-up begins.
    Begin,
    /// The answer to the root check: `Some(b)` when it answered a boolean.
    RootChecked(Option<bool>),
    /// The broker's accounts, or nothing when listing or reading them failed.
    AccountsListed(Option<Vec<BrokerAccount>>),
    /// The silent sign-in, or nothing when it failed.
    TokenAcquired(Option<TokenInfo>),
}

/// What the application does next during start-up.
pub enum StartupAction {
    /// Ask whether the process runs as root.
    CheckRoot,
    /// Ask the broker for its accounts.
    ListAccounts,
    /// Try a silent sign-in for this account.
    AcquireSilently(BrokerAccount),
    /// Show this screen; start-up is over.
    Show(AppView),
}

/// The event that each start-up stage waits for.
pub open spec fn startup_expects(stage: StartupStage, event: StartupEvent) -> bool {
    match stage {
        StartupStage::Start => event is Begin,
        StartupStage::CheckingRoot => event is RootChecked,
        StartupStage::ListingAccounts => event is AccountsListed,
        StartupStage::AcquiringToken => event is TokenAcquired,
        StartupStage::Done => false,
    }
}

/// Whether a start-up stage waits for this event.
pub fn startup_accepts(stage: &StartupStage, event: &StartupEvent) -> (r: bool)
    ensures
        r == startup_expects(*stage, *event),
{
    match stage {
        StartupStage::Start => matches!(event, StartupEvent::Begin),
        StartupStage::CheckingRoot => matches!(event, StartupEvent::RootChecked(_)),
        StartupStage::ListingAccounts => matches!(event, StartupEvent::AccountsListed(_)),
        StartupStage::AcquiringToken => matches!(event, StartupEvent::TokenAcquired(_)),
        StartupStage::Done => false,
    }
}

/// How far a start-up stage is from the end; every step lowers it.
pub open spec fn startup_left(stage: StartupStage) -> nat {
    match stage {
        StartupStage::Start => 4,
        StartupStage::CheckingRoot => 3,
        StartupStage::ListingAccounts => 2,
        StartupStage::AcquiringToken => 1,
        StartupStage::Done => 0,
    }
}

/// The stage that waits for the answer to an action: each action is
/// answered by exactly the event that this stage expects, and showing a
/// screen ends the start-up.
pub open spec fn stage_awaiting(action: StartupAction) -> StartupStage {
    match action {
        StartupAction::CheckRoot => StartupStage::CheckingRoot,
        StartupAction::ListAccounts => StartupStage::ListingAccounts,
        StartupAction::AcquireSilently(_) => StartupStage::AcquiringToken,
        StartupAction::Show(_) => StartupStage::Done,
    }
}

/// The dashboard for a signed-in user.
pub fn dashboard_for(info: TokenInfo) -> (v: AppView)
    ensures
        v matches AppView::Dashboard { name, username, access_token } && name@ == info.name@
            && username@ == info.username@ && access_token@ == info.access_token@,
{
    AppView::Dashboard { name: info.name, username: info.username, access_token: info.access_token }
}

/// One step of the start-up: the root check comes first, and a process
/// running as root stops on its error screen; otherwise the first cached
/// account is signed in silently, and the sign-in page is shown, ready,
/// when there is none or that fails.
pub fn startup_step(stage: StartupStage, event: StartupEvent) -> (r: (StartupStage, StartupAction))
    requires
        startup_expects(stage, event),
    ensures
        startup_left(r.0) < startup_left(stage),
        r.0 == stage_awaiting(r.1),
        r.1 is Show <==> r.0 is Done,
        match (stage, event) {
            (StartupStage::Start, _) => r.0 is CheckingRoot && r.1 is CheckRoot,
            (StartupStage::CheckingRoot, StartupEvent::RootChecked(b)) => if b == Some(true) {
                r.0 is Done && r.1 matches StartupAction::Show(AppView::RootError)
            } else {
                r.0 is ListingAccounts && r.1 is ListAccounts
            },
            (StartupStage::ListingAccounts, StartupEvent::AccountsListed(o)) => match o {
                Some(v) => if v@.len() > 0 {
                    r.1 == StartupAction::AcquireSilently(v@[0])
                } else {
                    r.1 matches StartupAction::Show(AppView::Login { checking: false })
                },
                None => r.1 matches StartupAction::Show(AppView::Login { checking: false }),
            },
            (StartupStage::AcquiringToken, StartupEvent::TokenAcquired(o)) => match o {
                Some(info) => r.1 matches StartupAction::Show(
                    AppView::Dashboard { name, username, access_token },
                ) && name@ == info.name@ && username@ == info.username@ && access_token@
                    == info.access_token@,
                None => r.1 matches StartupAction::Show(AppView::Login { checking: false }),
            },
            _ => true,
        },
{
    match stage {
        StartupStage::Start => (StartupStage::CheckingRoot, StartupAction::CheckRoot),
        StartupStage::CheckingRoot => match event {
            StartupEvent::RootChecked(Some(true)) => (
                StartupStage::Done,
                StartupAction::Show(AppView::RootError),
            ),
            _ => (StartupStage::ListingAccounts, StartupAction::ListAccounts),
        },
        StartupStage::ListingAccounts => match event {
            StartupEvent::AccountsListed(Some(v)) => {
                let mut v = v;
                if v.len() > 0 {
                    (StartupStage::AcquiringToken, StartupAction::AcquireSilently(v.remove(0)))
                } else {
                    (StartupStage::Done, StartupAction::Show(AppView::Login { checking: false }))
                }
            },
            _ => (StartupStage::Done, StartupAction::Show(AppView::Login { checking: false })),
        },
        StartupStage::AcquiringToken => match event {
            StartupEvent::TokenAcquired(Some(info)) => (
                StartupStage::Done,
                StartupAction::Show(dashboard_for(info)),
            ),
            _ => (StartupStage::Done, StartupAction::Show(AppView::Login { checking: false })),
        },
        StartupStage::Done => (StartupStage::Done, StartupAction::Show(AppView::RootError)),
    }
}

/// The first screen: the sign-in page, while a saved session is tried.
pub fn initial_view() -> (v: AppView)
    ensures
        v matches AppView::Login { checking: true },
{
    AppView::Login { checking: true }
}

/// Signing out returns to the sign-in page, ready.
pub fn after_logout() -> (v: AppView)
    ensures
        v matches AppView::Login { checking: false },
{
    AppView::Login { checking: false }
}

/// The sign-in button is disabled while a saved session is tried or an
/// interactive sign-in runs.
pub fn sign_in_busy(checking: bool, loading: bool) -> (r: bool)
    ensures
        r == (checking || loading),
{
    checking || loading
}

/// The error shown when an interactive sign-in fails: the broker's error
/// when it is text, else a generic one.
pub fn sign_in_error(error: Option<String>) -> (r: String)
    ensures
        match error {
            Some(e) => r@ == e@,
            None => r@ == "Authentication failed. Please try again."@,
        },
{
    match error {
        Some(e) => e,
        None => String::from_str("Authentication failed. Please try again."),
    }
}

/// The error shown when a sign-in answer cannot be read.
pub fn sign_in_parse_error(error: &str) -> (r: String)
    ensures
        r@ == "Failed to parse token response: "@ + error@,
{
    String::from_str("Failed to parse token response: ").concat(error)
}

/// The style of the box that shows a command's answer.
pub fn result_box_class(result: &Result<String, String>) -> (r: &'static str)
    ensures
        r@ == match result {
            Ok(_) => "result-box result-success"@,
            Err(_) => "result-box result-error"@,
        },
{
    match result {
        Ok(_) => "result-box result-success",
        Err(_) => "result-box result-error",
    }
}

} // verus!
