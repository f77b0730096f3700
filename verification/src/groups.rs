//! The test client's side of groups: which groups are known, how a group's
//! directory is set up, and the door that lets one coverage-writing session
//! run at a time.

use vstd::prelude::*;
use crate::group_difftest::CARGO_DIFFTESTS_SELF_PROFILE_FILENAME;
use crate::group_name::GroupName;
use crate::paths::{join, path_joined};
use crate::text::same_text;

verus! {

/// The pattern of the names under which child processes write their profiles.
pub const CARGO_DIFFTESTS_OTHER_PROFILE_FILENAME_TEMPLATE: &'static str = "%m_%p.profraw";

/// The environment variable that keeps an existing group directory from being
/// cleared.
pub const CARGO_DIFFTESTS_GROUP_NO_CLEAN: &'static str = "CARGO_DIFFTESTS_GROUP_NO_CLEAN";

/// What is known of a group while its tests run.
#[derive(Debug, Clone)]
pub struct GroupBasicInfo {
    /// The name of the group.
    pub name: GroupName,
    /// The binary that the group's tests share.
    pub bin_path: String,
    /// The directory that the group's data goes to.
    pub temp_dir: String,
}

impl GroupBasicInfo {
    /// A copy of this description.
    pub fn duplicate(&self) -> (r: GroupBasicInfo)
        ensures
            r.name.0@ == self.name.0@,
            r.bin_path@ == self.bin_path@,
            r.temp_dir@ == self.temp_dir@,
    {
        GroupBasicInfo {
            name: self.name.duplicate(),
            bin_path: self.bin_path.clone(),
            temp_dir: self.temp_dir.clone(),
        }
    }

    /// Where the child processes of the group's tests write their profiles.
    pub fn llvm_profile_file_value(&self) -> (r: String)
        ensures
            r@ == path_joined(self.temp_dir@, CARGO_DIFFTESTS_OTHER_PROFILE_FILENAME_TEMPLATE@),
    {
        join(self.temp_dir.as_str(), CARGO_DIFFTESTS_OTHER_PROFILE_FILENAME_TEMPLATE)
    }

    /// Where the group's own process writes its profile.
    pub fn self_llvm_profile_path(&self) -> (r: String)
        ensures
            r@ == path_joined(self.temp_dir@, CARGO_DIFFTESTS_SELF_PROFILE_FILENAME@),
    {
        join(self.temp_dir.as_str(), CARGO_DIFFTESTS_SELF_PROFILE_FILENAME)
    }
}

/// The description of a group, as the one who sets the group up gives it.
#[derive(Debug, Clone)]
pub struct GroupMeta {
    /// The binary that the group's tests share.
    pub bin_path: String,
    /// The name of the group.
    pub name: GroupName,
    /// The directory that the group's data goes to.
    pub temp_dir: String,
    /// What else describes the group, kept as it came.
    pub extra: String,
}

impl GroupMeta {
    /// What of the description is kept while the group's tests run.
    pub fn basic_info(&self) -> (r: GroupBasicInfo)
        ensures
            r.name.0@ == self.name.0@,
            r.bin_path@ == self.bin_path@,
            r.temp_dir@ == self.temp_dir@,
    {
        GroupBasicInfo {
            name: self.name.duplicate(),
            bin_path: self.bin_path.clone(),
            temp_dir: self.temp_dir.clone(),
        }
    }
}

/// How the directory of a group is set up.
#[derive(Clone, Copy, Debug, PartialEq, Eq, Structural)]
pub struct GroupDirPlan {
    /// Whether the directory is there and has to be removed first.
    pub remove_existing: bool,
    /// Whether the marker of the first test run has to be written: the
    /// directory is new, or made anew.
    pub write_first_test_run: bool,
}

/// Says how the directory of a group is set up: `dir_exists` tells whether it
/// is there, `no_clean` whether clearing it is switched off. An existing
/// directory is cleared unless that is switched off; the marker of the first
/// test run is written into every directory that is new or was cleared.
pub fn init_group_dir(dir_exists: bool, no_clean: bool) -> (r: GroupDirPlan)
    ensures
        r.remove_existing == (dir_exists && !no_clean),
        r.write_first_test_run == (!dir_exists || !no_clean),
{
    let clean = !no_clean;
    let remove_existing = dir_exists && clean;
    let fresh = if dir_exists {
        clean
    } else {
        true
    };
    GroupDirPlan { remove_existing, write_first_test_run: fresh }
}

/// The groups that are known, each under its name.
pub struct GroupDescriptions {
    groups: Vec<GroupBasicInfo>,
}

/// The names of the groups, in order.
pub open spec fn group_names(groups: Seq<GroupBasicInfo>) -> Seq<Seq<char>> {
    groups.map_values(|g: GroupBasicInfo| g.name.0@)
}

impl GroupDescriptions {
    /// No name is known twice.
    pub closed spec fn wf(self) -> bool {
        group_names(self.groups@).no_duplicates()
    }

    /// The groups that are known, in the order in which they became known.
    pub closed spec fn known(self) -> Seq<GroupBasicInfo> {
        self.groups@
    }

    /// No group is known yet.
    pub fn new() -> (r: Self)
        ensures
            r.wf(),
            r.known().len() == 0,
    {
        GroupDescriptions { groups: Vec::new() }
    }

    /// The description of the group `name`, where it is known.
    pub fn find(&self, name: &GroupName) -> (r: Option<GroupBasicInfo>)
        ensures
            r.is_some() == group_names(self.known()).contains(name.0@),
            match r {
                Some(info) => exists|i: int|
                    0 <= i < self.known().len() && (#[trigger] self.known()[i]).name.0@ == name.0@
                        && info.name.0@ == name.0@ && info.bin_path@ == self.known()[i].bin_path@
                        && info.temp_dir@ == self.known()[i].temp_dir@,
                None => true,
            },
    {
        let mut i: usize = 0;
        while i < self.groups.len()
            invariant
                i <= self.groups.len(),
                forall|k: int| 0 <= k < i ==> group_names(self.groups@)[k] != name.0@,
            decreases self.groups.len() - i,
        {
            if same_text(self.groups[i].name.as_str(), name.as_str()) {
                assert(group_names(self.groups@)[i as int] == name.0@);
                return Some(self.groups[i].duplicate());
            }
            i += 1;
        }
        None
    }

    /// Takes note of a group that was not known before.
    pub fn insert(&mut self, info: GroupBasicInfo)
        requires
            old(self).wf(),
            !group_names(old(self).known()).contains(info.name.0@),
        ensures
            final(self).wf(),
            final(self).known() == old(self).known().push(info),
    {
        proof {
            let names = group_names(self.groups@);
            assert(group_names(self.groups@.push(info)) =~= names.push(info.name.0@));
            assert forall|i: int, j: int|
                0 <= i < names.len() + 1 && 0 <= j < names.len() + 1 && i != j implies names.push(
                info.name.0@,
            )[i] != names.push(info.name.0@)[j] by {
                if i < names.len() && j < names.len() {
                } else if i < names.len() {
                    assert(names[i] != info.name.0@);
                } else {
                    assert(names[j] != info.name.0@);
                }
            }
        }
        self.groups.push(info);
    }
}

/// What the door has let in.
#[derive(Debug)]
pub enum State {
    /// No session is running.
    Idle,
    /// A session is running: that of the group `group_name`, or of a test that
    /// belongs to no group, with so many tests inside.
    Running { group_name: Option<GroupName>, running_test_count: usize },
}

/// What the door has let in, as a plain value.
pub enum DoorView {
    /// No session is running.
    Idle,
    /// A session is running, with so many tests inside.
    Running { group_name: Option<Seq<char>>, running_test_count: nat },
}

/// The name of an optional group as text.
pub open spec fn name_text(name: Option<GroupName>) -> Option<Seq<char>> {
    match name {
        Some(n) => Some(n.0@),
        None => None,
    }
}

impl View for State {
    type V = DoorView;

    open spec fn view(&self) -> DoorView {
        match *self {
            State::Idle => DoorView::Idle,
            State::Running { group_name, running_test_count } => DoorView::Running {
                group_name: name_text(group_name),
                running_test_count: running_test_count as nat,
            },
        }
    }
}

/// Whether a test of the session `request` has to wait at the door: another
/// session is running. A test of a group may join the session of its own
/// group; a test that belongs to no group joins nothing.
pub open spec fn has_to_wait(state: DoorView, request: Option<Seq<char>>) -> bool {
    match state {
        DoorView::Idle => false,
        DoorView::Running { group_name, .. } => request.is_none() || group_name != request,
    }
}

/// The door after a test of the session `request` went in.
pub open spec fn entered(state: DoorView, request: Option<Seq<char>>) -> DoorView {
    match state {
        DoorView::Idle => DoorView::Running { group_name: request, running_test_count: 1 },
        DoorView::Running { group_name, running_test_count } => DoorView::Running {
            group_name,
            running_test_count: running_test_count + 1,
        },
    }
}

/// The door after a test went out: idle once the last one is out.
pub open spec fn left(state: DoorView) -> DoorView {
    match state {
        DoorView::Idle => DoorView::Idle,
        DoorView::Running { group_name, running_test_count } => if running_test_count <= 1 {
            DoorView::Idle
        } else {
            DoorView::Running {
                group_name,
                running_test_count: (running_test_count - 1) as nat,
            }
        },
    }
}

/// Whether a test of the session `request` has to wait at the door.
pub fn must_wait(state: &State, request: &Option<GroupName>) -> (r: bool)
    ensures
        r == has_to_wait(state@, name_text(*request)),
{
    match state {
        State::Idle => false,
        State::Running { group_name, .. } => match request {
            None => true,
            Some(name) => match group_name {
                Some(running) => !same_text(running.as_str(), name.as_str()),
                None => true,
            },
        },
    }
}

/// Lets a test of the session `group_name` in. The caller has waited until
/// the door lets it in.
pub fn wr_test_group_inc(state: &mut State, group_name: Option<GroupName>)
    requires
        !has_to_wait(old(state)@, name_text(group_name)),
        old(state)@ matches DoorView::Running { running_test_count, .. } ==> running_test_count
            < usize::MAX,
    ensures
        final(state)@ == entered(old(state)@, name_text(group_name)),
{
    match state {
        State::Idle => {
            *state = State::Running { group_name, running_test_count: 1 };
        },
        State::Running { running_test_count, .. } => {
            *running_test_count = *running_test_count + 1;
        },
    }
}

/// Lets a test out. Says whether it was the last one of its session: then the
/// session's profile has to be written and those who wait have to be woken,
/// and the door is idle again.
pub fn wr_test_group_dec(state: &mut State) -> (r: bool)
    requires
        old(state)@ matches DoorView::Running { running_test_count, .. } && running_test_count
            > 0,
    ensures
        final(state)@ == left(old(state)@),
        r == (final(state)@ is Idle),
{
    let last = match state {
        State::Idle => true,
        State::Running { running_test_count, .. } => {
            *running_test_count = *running_test_count - 1;
            *running_test_count == 0
        },
    };
    if last {
        *state = State::Idle;
    }
    last
}

/// Whether the door and the sessions of the tests inside it fit together: the
/// door counts the tests inside, all of them belong to the session that the
/// door names, and a test that belongs to no group is inside alone.
pub open spec fn door_holds(state: DoorView, inside: Seq<Option<Seq<char>>>) -> bool {
    match state {
        DoorView::Idle => inside.len() == 0,
        DoorView::Running { group_name, running_test_count } => {
            &&& running_test_count == inside.len()
            &&& inside.len() > 0
            &&& forall|i: int| 0 <= i < inside.len() ==> #[trigger] inside[i] == group_name
            &&& group_name.is_none() ==> inside.len() == 1
        },
    }
}

/// Group isolation. Where the door and the tests inside fit together, any two
/// tests inside belong to one session, which is that of a group unless the
/// test is inside alone: sessions of different groups are never inside at
/// the same time.
pub proof fn law_one_session_inside(state: DoorView, inside: Seq<Option<Seq<char>>>, i: int, j: int)
    requires
        door_holds(state, inside),
        0 <= i < inside.len(),
        0 <= j < inside.len(),
        i != j,
    ensures
        inside[i] == inside[j],
        inside[i].is_some(),
{
}

/// Group isolation. The door and the tests inside fit together at the start,
/// and still do after a test went in that did not have to wait, and after a
/// test that was inside went out.
pub proof fn law_door_keeps_sessions_apart(
    state: DoorView,
    inside: Seq<Option<Seq<char>>>,
    request: Option<Seq<char>>,
    k: int,
)
    requires
        door_holds(state, inside),
    ensures
        door_holds(DoorView::Idle, Seq::empty()),
        !has_to_wait(state, request) ==> door_holds(entered(state, request), inside.push(request)),
        0 <= k < inside.len() ==> door_holds(left(state), inside.remove(k)),
{
}

/// What happens at the door: a test asks to go in, or one of the tests inside
/// goes out.
pub enum DoorEvent {
    /// A test of this session asks to go in. It goes in unless it has to wait.
    Enter(Option<Seq<char>>),
    /// The test at this position among those inside goes out.
    Leave(int),
}

/// The door and the sessions of the tests inside after `events` took place in
/// order, starting with the door idle and no test inside. A test that has to
/// wait stays outside, and a position at which no test is inside lets none
/// out.
pub open spec fn after_events(events: Seq<DoorEvent>) -> (DoorView, Seq<Option<Seq<char>>>)
    decreases events.len(),
{
    if events.len() == 0 {
        (DoorView::Idle, Seq::empty())
    } else {
        let (state, inside) = after_events(events.drop_last());
        match events.last() {
            DoorEvent::Enter(request) => if has_to_wait(state, request) {
                (state, inside)
            } else {
                (entered(state, request), inside.push(request))
            },
            DoorEvent::Leave(k) => if 0 <= k < inside.len() {
                (left(state), inside.remove(k))
            } else {
                (state, inside)
            },
        }
    }
}

/// Group isolation. Whatever happens at the door, and in whatever order, the
/// tests that are inside at one time belong to one session: tests of
/// different groups, and tests of no group, are never inside together.
pub proof fn law_sessions_never_overlap(events: Seq<DoorEvent>, i: int, j: int)
    requires
        0 <= i < after_events(events).1.len(),
        0 <= j < after_events(events).1.len(),
        i != j,
    ensures
        after_events(events).1[i] == after_events(events).1[j],
        after_events(events).1[i].is_some(),
{
    lemma_door_always_holds(events);
    law_one_session_inside(after_events(events).0, after_events(events).1, i, j);
}

/// Whatever happens at the door, the door and the tests inside fit together.
proof fn lemma_door_always_holds(events: Seq<DoorEvent>)
    ensures
        door_holds(after_events(events).0, after_events(events).1),
    decreases events.len(),
{
    if events.len() > 0 {
        lemma_door_always_holds(events.drop_last());
        let (state, inside) = after_events(events.drop_last());
        match events.last() {
            DoorEvent::Enter(request) => {
                law_door_keeps_sessions_apart(state, inside, request, 0);
            },
            DoorEvent::Leave(k) => {
                law_door_keeps_sessions_apart(state, inside, None, k);
            },
        }
    }
}

/// Group isolation. A test of one group has to wait while a test of another
/// group, or of no group, is inside; a test of the group that is inside does
/// not.
pub proof fn law_door_waits_for_other_sessions(
    state: DoorView,
    inside: Seq<Option<Seq<char>>>,
    request: Option<Seq<char>>,
)
    requires
        door_holds(state, inside),
        inside.len() > 0,
    ensures
        has_to_wait(state, request) <==> (request.is_none() || inside[0] != request),
{
}

} // verus!
