use vstd::prelude::*;
use crate::settings::EndpointRole;

verus! {

/// The entry points of the transport backend.
#[derive(Clone, Copy, Debug, PartialEq, Eq, Structural)]
pub enum EntryPoint {
    Create,
    Destroy,
    Setup,
    Operate,
    Open,
    Bind,
    On,
    FrameCreate,
    FramePush,
    FrameEmit,
    FrameDestroy,
}

impl EntryPoint {
    pub open spec fn spec_symbol(self) -> Seq<char> {
        match self {
            EntryPoint::Create => "websocket_create"@,
            EntryPoint::Destroy => "websocket_destroy"@,
            EntryPoint::Setup => "websocket_setup"@,
            EntryPoint::Operate => "websocket_operate"@,
            EntryPoint::Open => "websocket_open"@,
            EntryPoint::Bind => "websocket_bind"@,
            EntryPoint::On => "websocket_on"@,
            EntryPoint::FrameCreate => "websocket_frame_create"@,
            EntryPoint::FramePush => "websocket_frame_push"@,
            EntryPoint::FrameEmit => "websocket_frame_emit"@,
            EntryPoint::FrameDestroy => "websocket_frame_destroy"@,
        }
    }

    /// The symbol under which the backend exports the entry point.
    pub fn symbol(&self) -> (r: &'static str)
        ensures
            r@ == self.spec_symbol(),
    {
        match self {
            EntryPoint::Create => "websocket_create",
            EntryPoint::Destroy => "websocket_destroy",
            EntryPoint::Setup => "websocket_setup",
            EntryPoint::Operate => "websocket_operate",
            EntryPoint::Open => "websocket_open",
            EntryPoint::Bind => "websocket_bind",
            EntryPoint::On => "websocket_on",
            EntryPoint::FrameCreate => "websocket_frame_create",
            EntryPoint::FramePush => "websocket_frame_push",
            EntryPoint::FrameEmit => "websocket_frame_emit",
            EntryPoint::FrameDestroy => "websocket_frame_destroy",
        }
    }

    /// The frame helpers are optional; of connect and bind, only the one
    /// of the endpoint's role is needed.
    pub open spec fn required_for(self, role: EndpointRole) -> bool {
        match self {
            EntryPoint::Open => role == EndpointRole::Client,
            EntryPoint::Bind => role == EndpointRole::Server,
            EntryPoint::FrameCreate | EntryPoint::FramePush | EntryPoint::FrameEmit
            | EntryPoint::FrameDestroy => false,
            _ => true,
        }
    }

    pub fn is_required_for(&self, role: EndpointRole) -> (r: bool)
        ensures
            r == self.required_for(role),
    {
        match self {
            EntryPoint::Open => role == EndpointRole::Client,
            EntryPoint::Bind => role == EndpointRole::Server,
            EntryPoint::FrameCreate | EntryPoint::FramePush | EntryPoint::FrameEmit
            | EntryPoint::FrameDestroy => false,
            _ => true,
        }
    }
}

/// Every entry point, in the order in which they are resolved.
pub open spec fn entry_table() -> Seq<EntryPoint> {
    seq![
        EntryPoint::Create,
        EntryPoint::Destroy,
        EntryPoint::Setup,
        EntryPoint::Operate,
        EntryPoint::Open,
        EntryPoint::Bind,
        EntryPoint::On,
        EntryPoint::FrameCreate,
        EntryPoint::FramePush,
        EntryPoint::FrameEmit,
        EntryPoint::FrameDestroy,
    ]
}

pub fn entry_points() -> (r: Vec<EntryPoint>)
    ensures
        r@ == entry_table(),
{
    let r = vec![
        EntryPoint::Create,
        EntryPoint::Destroy,
        EntryPoint::Setup,
        EntryPoint::Operate,
        EntryPoint::Open,
        EntryPoint::Bind,
        EntryPoint::On,
        EntryPoint::FrameCreate,
        EntryPoint::FramePush,
        EntryPoint::FrameEmit,
        EntryPoint::FrameDestroy,
    ];
    assert(r@ =~= entry_table());
    r
}

/// What a loaded backend offers beyond the required entry points.
#[derive(Clone, Copy, Debug, PartialEq, Eq, Structural)]
pub struct Capabilities {
    /// Outgoing frames can be built and sent; without this the endpoint
    /// only receives.
    pub frames: bool,
}

/// Why the backend could not be used.
#[derive(Clone, Copy, Debug, PartialEq, Eq, Structural)]
pub enum LoadError {
    EntryPointMissing(EntryPoint),
}

pub open spec fn frames_resolved(resolved: Seq<EntryPoint>) -> bool {
    &&& resolved.contains(EntryPoint::FrameCreate)
    &&& resolved.contains(EntryPoint::FramePush)
    &&& resolved.contains(EntryPoint::FrameEmit)
    &&& resolved.contains(EntryPoint::FrameDestroy)
}

/// Every entry point before position `i` of the table that `role` requires
/// is among `resolved`.
pub open spec fn all_present_before(role: EndpointRole, resolved: Seq<EntryPoint>, i: int) -> bool {
    forall|j: int|
        0 <= j < i && (#[trigger] entry_table()[j]).required_for(role) ==> resolved.contains(
            entry_table()[j],
        )
}

fn contains_entry(v: &Vec<EntryPoint>, e: EntryPoint) -> (r: bool)
    ensures
        r == v@.contains(e),
{
    let mut i: usize = 0;
    while i < v.len()
        invariant
            i <= v@.len(),
            forall|j: int| 0 <= j < i ==> v@[j] != e,
        decreases v@.len() - i,
    {
        if v[i] == e {
            assert(v@[i as int] == e);
            return true;
        }
        i = i + 1;
    }
    false
}

/// Decides, from the entry points that could be resolved, whether an
/// endpoint of `role` can run: the first required entry point missing, in
/// table order, is a fatal error; the frame helpers are best-effort and only
/// decide whether outgoing frames are available.
pub fn resolve_capabilities(role: EndpointRole, resolved: &Vec<EntryPoint>) -> (r: Result<
    Capabilities,
    LoadError,
>)
    ensures
        r is Ok <==> forall|e: EntryPoint| #[trigger]
            e.required_for(role) ==> resolved@.contains(e),
        r matches Ok(c) ==> c.frames == frames_resolved(resolved@),
        r matches Err(LoadError::EntryPointMissing(e)) ==> {
            &&& e.required_for(role)
            &&& !resolved@.contains(e)
            &&& exists|i: int|
                0 <= i < entry_table().len() && entry_table()[i] == e && #[trigger] all_present_before(
                    role,
                    resolved@,
                    i,
                )
        },
{
    let table = entry_points();
    let mut i: usize = 0;
    while i < table.len()
        invariant
            table@ == entry_table(),
            i <= table@.len(),
            forall|j: int|
                0 <= j < i && (#[trigger] table@[j]).required_for(role) ==> resolved@.contains(
                    table@[j],
                ),
        decreases table@.len() - i,
    {
        let e = table[i];
        if e.is_required_for(role) && !contains_entry(resolved, e) {
            proof {
                assert(entry_table()[i as int] == e);
                assert(all_present_before(role, resolved@, i as int));
            }
            return Err(LoadError::EntryPointMissing(e));
        }
        i = i + 1;
    }
    proof {
        assert forall|e: EntryPoint| #[trigger] e.required_for(role) implies resolved@.contains(
            e,
        ) by {
            let k: int = match e {
                EntryPoint::Create => 0,
                EntryPoint::Destroy => 1,
                EntryPoint::Setup => 2,
                EntryPoint::Operate => 3,
                EntryPoint::Open => 4,
                EntryPoint::Bind => 5,
                EntryPoint::On => 6,
                EntryPoint::FrameCreate => 7,
                EntryPoint::FramePush => 8,
                EntryPoint::FrameEmit => 9,
                EntryPoint::FrameDestroy => 10,
            };
            assert(table@[k] == e);
        }
    }
    let frames = contains_entry(resolved, EntryPoint::FrameCreate) && contains_entry(
        resolved,
        EntryPoint::FramePush,
    ) && contains_entry(resolved, EntryPoint::FrameEmit) && contains_entry(
        resolved,
        EntryPoint::FrameDestroy,
    );
    Ok(Capabilities { frames })
}

} // verus!
