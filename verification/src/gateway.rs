use vstd::prelude::*;
use crate::address::Address;
use crate::address_map::AddressMap;
use crate::error::QuipayError;
use crate::event::GatewayEvent;
use crate::payroll_stream::PayrollStream;
use crate::stream::Settlement;

verus! {

/// What an agent can be allowed to do on an employer's behalf.
///
/// Each permission has one code, and no two share one: the codes run from one
/// for `ExecutePayroll` to six for `RebalanceTreasury`, in the order of
/// declaration.
#[derive(Clone, Copy, Debug, PartialEq, Eq, Hash, Structural)]
pub enum Permission {
    ExecutePayroll,
    ManageTreasury,
    RegisterAgent,
    CreateStream,
    CancelStream,
    RebalanceTreasury,
}

impl Permission {
    /// The code of the permission.
    pub open spec fn code_of(self) -> u32 {
        match self {
            Permission::ExecutePayroll => 1,
            Permission::ManageTreasury => 2,
            Permission::RegisterAgent => 3,
            Permission::CreateStream => 4,
            Permission::CancelStream => 5,
            Permission::RebalanceTreasury => 6,
        }
    }

    /// The code of the permission.
    pub fn code(&self) -> (code: u32)
        ensures
            code == self.code_of(),
            1 <= code <= 6,
    {
        match self {
            Permission::ExecutePayroll => 1,
            Permission::ManageTreasury => 2,
            Permission::RegisterAgent => 3,
            Permission::CreateStream => 4,
            Permission::CancelStream => 5,
            Permission::RebalanceTreasury => 6,
        }
    }

    /// The permission with the given code, if there is one.
    pub fn from_code(code: u32) -> (r: Option<Permission>)
        ensures
            match r {
                Some(permission) => permission.code_of() == code,
                None => forall|permission: Permission| permission.code_of() != code,
            },
    {
        if code == 1 {
            Some(Permission::ExecutePayroll)
        } else if code == 2 {
            Some(Permission::ManageTreasury)
        } else if code == 3 {
            Some(Permission::RegisterAgent)
        } else if code == 4 {
            Some(Permission::CreateStream)
        } else if code == 5 {
            Some(Permission::CancelStream)
        } else if code == 6 {
            Some(Permission::RebalanceTreasury)
        } else {
            None
        }
    }
}

/// An automated agent and what it is allowed to do.
#[derive(Debug)]
pub struct Agent {
    pub address: Address,
    pub permissions: Vec<Permission>,
    /// When the agent was registered.
    pub registered_at: u64,
}

/// What an agent's record says.
pub struct AgentRecord {
    pub address: Address,
    pub permissions: Seq<Permission>,
    pub registered_at: u64,
}

impl Agent {
    pub open spec fn view(&self) -> AgentRecord {
        AgentRecord {
            address: self.address,
            permissions: self.permissions@,
            registered_at: self.registered_at,
        }
    }

    /// A copy of the agent.
    pub fn duplicate(&self) -> (copy: Agent)
        ensures
            copy@ == self@,
    {
        let permissions = self.permissions.clone();
        assert(permissions@ =~= self.permissions@);
        Agent { address: self.address, permissions, registered_at: self.registered_at }
    }
}

impl Clone for Agent {
    fn clone(&self) -> (copy: Self)
        ensures
            copy@ == self@,
    {
        self.duplicate()
    }
}

/// `permissions` with `permission` added at the end, unless it is there.
pub open spec fn granted(permissions: Seq<Permission>, permission: Permission) -> Seq<Permission> {
    if permissions.contains(permission) {
        permissions
    } else {
        permissions.push(permission)
    }
}

/// The test that tells every other permission from `permission`.
pub open spec fn other_than(permission: Permission) -> spec_fn(Permission) -> bool {
    |p: Permission| p != permission
}

/// `permissions` without any occurrence of `permission`, the rest in order.
pub open spec fn revoked(permissions: Seq<Permission>, permission: Permission) -> Seq<Permission> {
    permissions.filter(other_than(permission))
}

/// The state of a permission gateway.
#[verifier::ext_equal]
pub struct GatewayState {
    /// Who may register agents and change their permissions.
    pub admin: Option<Address>,
    /// The stream ledger that the gateway forwards to.
    pub payroll_stream: Option<Address>,
    /// The registered agents, by address.
    pub agents: Map<Address, AgentRecord>,
    /// The events reported since they were last taken.
    pub events: Seq<GatewayEvent>,
}

impl GatewayState {
    /// The state of a new gateway: not initialized, no ledger, no agents,
    /// nothing reported.
    pub open spec fn initial() -> GatewayState {
        GatewayState {
            admin: None,
            payroll_stream: None,
            agents: Map::empty(),
            events: Seq::empty(),
        }
    }

    /// The state with the given settings that holds `agent` and no other,
    /// and has reported nothing.
    pub open spec fn holding(
        admin: Option<Address>,
        payroll_stream: Option<Address>,
        agent: Option<AgentRecord>,
    ) -> GatewayState {
        GatewayState {
            admin,
            payroll_stream,
            agents: match agent {
                Some(agent) => Map::<Address, AgentRecord>::empty().insert(agent.address, agent),
                None => Map::<Address, AgentRecord>::empty(),
            },
            events: Seq::empty(),
        }
    }

    /// The state in which `event` is reported as well.
    pub open spec fn reporting(self, event: GatewayEvent) -> GatewayState {
        GatewayState { events: self.events.push(event), ..self }
    }

    /// Hands out the events that were reported, and keeps none.
    pub open spec fn take_events(self) -> (GatewayState, Seq<GatewayEvent>) {
        (GatewayState { events: Seq::empty(), ..self }, self.events)
    }

    /// Every agent is filed under its own address.
    pub open spec fn wf(self) -> bool {
        forall|a: Address| #[trigger] self.agents.contains_key(a) ==> self.agents[a].address == a
    }

    /// Whether `caller` may administer the gateway.
    pub open spec fn admin_check(self, caller: Address) -> Result<(), QuipayError> {
        match self.admin {
            None => Err(QuipayError::NotInitialized),
            Some(admin) => if admin == caller {
                Ok(())
            } else {
                Err(QuipayError::Unauthorized)
            },
        }
    }

    /// Whether `caller` may change the agent at `agent_address`.
    pub open spec fn agent_check(self, caller: Address, agent_address: Address) -> Result<
        (),
        QuipayError,
    > {
        match self.admin_check(caller) {
            Err(e) => Err(e),
            Ok(()) => if self.agents.contains_key(agent_address) {
                Ok(())
            } else {
                Err(QuipayError::AgentNotFound)
            },
        }
    }

    /// The state in which the agent at `agent_address` has `permissions`.
    pub open spec fn with_permissions(self, agent_address: Address, permissions: Seq<Permission>)
        -> GatewayState {
        GatewayState {
            agents: self.agents.insert(
                agent_address,
                AgentRecord { permissions, ..self.agents[agent_address] },
            ),
            ..self
        }
    }

    /// Makes `admin` the administrator, once.
    pub open spec fn init(self, admin: Address) -> (GatewayState, Result<(), QuipayError>) {
        if self.admin is Some {
            (self, Err(QuipayError::AlreadyInitialized))
        } else {
            (GatewayState { admin: Some(admin), ..self }, Ok(()))
        }
    }

    /// Registers an agent with `permissions`, in place of any agent that was
    /// registered at that address.
    pub open spec fn register_agent(
        self,
        caller: Address,
        agent_address: Address,
        permissions: Seq<Permission>,
        now: u64,
    ) -> (GatewayState, Result<(), QuipayError>) {
        match self.admin_check(caller) {
            Err(e) => (self, Err(e)),
            Ok(()) => (
                GatewayState {
                    agents: self.agents.insert(
                        agent_address,
                        AgentRecord { address: agent_address, permissions, registered_at: now },
                    ),
                    ..self
                }.reporting(GatewayEvent::AgentRegistered { agent: agent_address }),
                Ok(()),
            ),
        }
    }

    /// Removes the agent at `agent_address`, if there is one.
    pub open spec fn revoke_agent(self, caller: Address, agent_address: Address) -> (
        GatewayState,
        Result<(), QuipayError>,
    ) {
        match self.admin_check(caller) {
            Err(e) => (self, Err(e)),
            Ok(()) => (
                GatewayState { agents: self.agents.remove(agent_address), ..self }.reporting(
                    GatewayEvent::AgentRevoked { agent: agent_address },
                ),
                Ok(()),
            ),
        }
    }

    /// Replaces the permissions of a registered agent.
    pub open spec fn set_agent_permissions(
        self,
        caller: Address,
        agent_address: Address,
        permissions: Seq<Permission>,
    ) -> (GatewayState, Result<(), QuipayError>) {
        match self.agent_check(caller, agent_address) {
            Err(e) => (self, Err(e)),
            Ok(()) => (
                self.with_permissions(agent_address, permissions).reporting(
                    GatewayEvent::PermissionsSet { agent: agent_address },
                ),
                Ok(()),
            ),
        }
    }

    /// Gives a registered agent one more permission, unless it has it.
    pub open spec fn grant_permission(
        self,
        caller: Address,
        agent_address: Address,
        permission: Permission,
    ) -> (GatewayState, Result<(), QuipayError>) {
        match self.agent_check(caller, agent_address) {
            Err(e) => (self, Err(e)),
            Ok(()) => (
                self.with_permissions(
                    agent_address,
                    granted(self.agents[agent_address].permissions, permission),
                ).reporting(GatewayEvent::PermissionGranted { agent: agent_address, permission }),
                Ok(()),
            ),
        }
    }

    /// Takes a permission away from a registered agent.
    pub open spec fn revoke_permission(
        self,
        caller: Address,
        agent_address: Address,
        permission: Permission,
    ) -> (GatewayState, Result<(), QuipayError>) {
        match self.agent_check(caller, agent_address) {
            Err(e) => (self, Err(e)),
            Ok(()) => (
                self.with_permissions(
                    agent_address,
                    revoked(self.agents[agent_address].permissions, permission),
                ).reporting(GatewayEvent::PermissionRevoked { agent: agent_address, permission }),
                Ok(()),
            ),
        }
    }

    /// Sets the stream ledger that the gateway forwards to.
    pub open spec fn set_payroll_stream(self, caller: Address, payroll_stream: Address) -> (
        GatewayState,
        Result<(), QuipayError>,
    ) {
        match self.admin_check(caller) {
            Err(e) => (self, Err(e)),
            Ok(()) => (GatewayState { payroll_stream: Some(payroll_stream), ..self }, Ok(())),
        }
    }

    /// Whether a registered agent at `agent_address` holds `action`.
    pub open spec fn is_authorized(self, agent_address: Address, action: Permission) -> bool {
        self.agents.contains_key(agent_address) && self.agents[agent_address].permissions.contains(
            action,
        )
    }

    /// Lets the agent take `action`, if it holds the permission.
    pub open spec fn execute_automation(self, agent: Address, action: Permission) -> (
        GatewayState,
        Result<(), QuipayError>,
    ) {
        if self.is_authorized(agent, action) {
            (self.reporting(GatewayEvent::Executed { agent, action }), Ok(()))
        } else {
            (self, Err(QuipayError::InsufficientPermissions))
        }
    }

    /// The stream ledger to which a call of `agent` that needs `action` is
    /// forwarded.
    pub open spec fn route(self, agent: Address, action: Permission) -> Result<
        Address,
        QuipayError,
    > {
        if !self.is_authorized(agent, action) {
            Err(QuipayError::InsufficientPermissions)
        } else {
            match self.payroll_stream {
                None => Err(QuipayError::NotInitialized),
                Some(payroll_stream) => Ok(payroll_stream),
            }
        }
    }

    /// Reports what the stream ledger did at a request of `agent` that needs
    /// `action`, if such a request is forwarded at all.
    pub open spec fn report_forwarded(self, agent: Address, action: Permission, event: GatewayEvent)
        -> (GatewayState, Result<(), QuipayError>) {
        match self.route(agent, action) {
            Err(e) => (self, Err(e)),
            Ok(_) => (self.reporting(event), Ok(())),
        }
    }
}

/// After a grant the permission is held, and whatever was held is held still.
pub proof fn lemma_granted_holds(permissions: Seq<Permission>, permission: Permission)
    ensures
        granted(permissions, permission).contains(permission),
        forall|p: Permission|
            permissions.contains(p) ==> #[trigger] granted(permissions, permission).contains(p),
        forall|p: Permission|
            p != permission && #[trigger] granted(permissions, permission).contains(p)
                ==> permissions.contains(p),
{
    let after = granted(permissions, permission);
    if !permissions.contains(permission) {
        assert(after[permissions.len() as int] == permission);
        assert forall|p: Permission| permissions.contains(p) implies #[trigger] after.contains(
            p,
        ) by {
            let i = choose|i: int| 0 <= i < permissions.len() && permissions[i] == p;
            assert(after[i] == p);
        }
        assert forall|p: Permission|
            p != permission && #[trigger] after.contains(p) implies permissions.contains(p) by {
            let i = choose|i: int| 0 <= i < after.len() && after[i] == p;
            assert(permissions[i] == p);
        }
    }
}

/// After a revocation the permission is not held, and every other permission
/// is held exactly if it was held before.
pub proof fn lemma_revoked_lacks(permissions: Seq<Permission>, permission: Permission)
    ensures
        !revoked(permissions, permission).contains(permission),
        forall|p: Permission|
            p != permission ==> (#[trigger] revoked(permissions, permission).contains(p)
                <==> permissions.contains(p)),
{
    let keep = other_than(permission);
    let after = permissions.filter(keep);
    if after.contains(permission) {
        let i = choose|i: int| 0 <= i < after.len() && after[i] == permission;
        permissions.lemma_filter_pred(keep, i);
    }
    assert forall|p: Permission| p != permission implies (#[trigger] after.contains(p)
        <==> permissions.contains(p)) by {
        if after.contains(p) {
            permissions.lemma_filter_contains_rev(keep, p);
        }
        if permissions.contains(p) {
            let i = choose|i: int| 0 <= i < permissions.len() && permissions[i] == p;
            permissions.lemma_filter_contains(keep, i);
        }
    }
}

/// Tests whether `permission` is among `permissions`.
pub fn holds(permissions: &Vec<Permission>, permission: Permission) -> (r: bool)
    ensures
        r == permissions@.contains(permission),
{
    let mut i: usize = 0;
    while i < permissions.len()
        invariant
            i <= permissions@.len(),
            forall|j: int| 0 <= j < i ==> permissions@[j] != permission,
        decreases permissions@.len() - i,
    {
        if permissions[i] == permission {
            return true;
        }
        i += 1;
    }
    false
}

/// A copy of `permissions` to which `permission` is added at the end, unless
/// it is there.
pub fn grant(permissions: &Vec<Permission>, permission: Permission) -> (r: Vec<Permission>)
    ensures
        r@ == granted(permissions@, permission),
{
    let mut r: Vec<Permission> = Vec::new();
    let mut i: usize = 0;
    while i < permissions.len()
        invariant
            i <= permissions@.len(),
            r@ == permissions@.take(i as int),
        decreases permissions@.len() - i,
    {
        r.push(permissions[i]);
        assert(permissions@.take(i as int).push(permissions@[i as int]) =~= permissions@.take(
            i + 1,
        ));
        i += 1;
    }
    assert(permissions@.take(i as int) =~= permissions@);
    if !holds(permissions, permission) {
        r.push(permission);
    }
    r
}

/// A copy of `permissions` without any occurrence of `permission`, the rest
/// in order.
pub fn revoke(permissions: &Vec<Permission>, permission: Permission) -> (r: Vec<Permission>)
    ensures
        r@ == revoked(permissions@, permission),
{
    let ghost keep = other_than(permission);
    let mut r: Vec<Permission> = Vec::new();
    let mut i: usize = 0;
    proof {
        reveal(Seq::filter);
        assert(permissions@.take(0).filter(keep) =~= Seq::<Permission>::empty());
    }
    while i < permissions.len()
        invariant
            i <= permissions@.len(),
            keep == other_than(permission),
            r@ == permissions@.take(i as int).filter(keep),
        decreases permissions@.len() - i,
    {
        proof {
            reveal(Seq::filter);
            let next = permissions@.take(i + 1);
            assert(next.drop_last() =~= permissions@.take(i as int));
            assert(next.last() == permissions@[i as int]);
        }
        if permissions[i] != permission {
            r.push(permissions[i]);
        }
        i += 1;
    }
    assert(permissions@.take(i as int) =~= permissions@);
    r
}

/// The permission gateway: it knows which agents may act on an employer's
/// behalf, and forwards what they may do to the stream ledger.
pub struct AutomationGateway {
    admin: Option<Address>,
    payroll_stream: Option<Address>,
    agents: AddressMap<Agent>,
    events: Vec<GatewayEvent>,
}

impl AutomationGateway {
    /// The state of the gateway.
    pub closed spec fn view(&self) -> GatewayState {
        GatewayState {
            admin: self.admin,
            payroll_stream: self.payroll_stream,
            agents: self.agents@.map_values(|agent: Agent| agent@),
            events: self.events@,
        }
    }

    #[verifier::type_invariant]
    spec fn inv(self) -> bool {
        self@.wf()
    }

    /// A new gateway: not initialized, with no ledger and no agents.
    pub fn new() -> (gateway: Self)
        ensures
            gateway@ == GatewayState::initial(),
    {
        let gateway = AutomationGateway {
            admin: None,
            payroll_stream: None,
            agents: AddressMap::new(),
            events: Vec::new(),
        };
        assert(gateway@.agents =~= Map::<Address, AgentRecord>::empty());
        gateway
    }

    /// The gateway with the given settings that holds `agent` and no other: a
    /// part of a gateway that was put away, with the one agent that the next
    /// operation is about.
    pub fn restore(
        admin: Option<Address>,
        payroll_stream: Option<Address>,
        agent: Option<Agent>,
    ) -> (gateway: Self)
        ensures
            gateway@ == GatewayState::holding(
                admin,
                payroll_stream,
                match agent {
                    Some(agent) => Some(agent@),
                    None => None,
                },
            ),
    {
        let mut agents: AddressMap<Agent> = AddressMap::new();
        let ghost mut expected: Map<Address, AgentRecord> = Map::empty();
        match agent {
            Some(agent) => {
                proof {
                    expected = expected.insert(agent.address, agent@);
                }
                agents.insert(agent.address, agent);
            },
            None => {},
        }
        assert(agents@.map_values(|agent: Agent| agent@) =~= expected);
        AutomationGateway { admin, payroll_stream, agents, events: Vec::new() }
    }

    /// The agent registered at `agent_address`, if there is one.
    pub fn get_agent(&self, agent_address: Address) -> (r: Option<Agent>)
        ensures
            match r {
                Some(agent) => self@.agents.contains_key(agent_address) && agent@
                    == self@.agents[agent_address] && agent.address == agent_address,
                None => !self@.agents.contains_key(agent_address),
            },
    {
        proof {
            use_type_invariant(self);
        }
        match self.agents.get(agent_address) {
            Some(agent) => Some(agent.duplicate()),
            None => None,
        }
    }

    /// Makes `admin` the administrator. Fails with `AlreadyInitialized` if
    /// there is one.
    pub fn init(&mut self, admin: Address) -> (r: Result<(), QuipayError>)
        ensures
            final(self)@ == old(self)@.init(admin).0,
            r == old(self)@.init(admin).1,
    {
        proof {
            use_type_invariant(&*self);
        }
        if self.admin.is_some() {
            return Err(QuipayError::AlreadyInitialized);
        }
        self.admin = Some(admin);
        Ok(())
    }

    /// The administrator. Fails with `NotInitialized` if there is none.
    pub fn get_admin(&self) -> (r: Result<Address, QuipayError>)
        ensures
            r == (match self@.admin {
                Some(admin) => Ok::<Address, QuipayError>(admin),
                None => Err::<Address, QuipayError>(QuipayError::NotInitialized),
            }),
    {
        match self.admin {
            Some(admin) => Ok(admin),
            None => Err(QuipayError::NotInitialized),
        }
    }

    fn check_admin(&self, caller: Address) -> (r: Result<(), QuipayError>)
        ensures
            r == self@.admin_check(caller),
    {
        match self.admin {
            None => Err(QuipayError::NotInitialized),
            Some(admin) => if admin == caller {
                Ok(())
            } else {
                Err(QuipayError::Unauthorized)
            },
        }
    }

    /// Reports `event`.
    fn report(&mut self, event: GatewayEvent)
        ensures
            final(self)@ == old(self)@.reporting(event),
    {
        proof {
            use_type_invariant(&*self);
        }
        let mut events: Vec<GatewayEvent> = Vec::new();
        std::mem::swap(&mut events, &mut self.events);
        events.push(event);
        self.events = events;
    }

    /// Hands out the events that the gateway has reported since they were
    /// last taken, in the order in which they were reported, and keeps none.
    pub fn take_events(&mut self) -> (events: Vec<GatewayEvent>)
        ensures
            final(self)@ == old(self)@.take_events().0,
            events@ == old(self)@.take_events().1,
    {
        proof {
            use_type_invariant(&*self);
        }
        let mut events: Vec<GatewayEvent> = Vec::new();
        std::mem::swap(&mut events, &mut self.events);
        events
    }

    /// Files `agent` under its address.
    fn file(&mut self, agent: Agent)
        ensures
            final(self)@ == (GatewayState {
                agents: old(self)@.agents.insert(agent.address, agent@),
                ..old(self)@
            }),
    {
        proof {
            use_type_invariant(&*self);
        }
        let ghost before = self.agents@;
        let ghost record = agent@;
        let ghost key = agent.address;
        let mut agents: AddressMap<Agent> = AddressMap::new();
        std::mem::swap(&mut agents, &mut self.agents);
        agents.insert(agent.address, agent);
        proof {
            assert(agents@.map_values(|agent: Agent| agent@) =~= before.map_values(
                |agent: Agent| agent@,
            ).insert(key, record));
        }
        self.agents = agents;
    }

    /// The permissions of the agent at `agent_address`, provided that `caller`
    /// may change them.
    fn permissions_of(&self, caller: Address, agent_address: Address) -> (r: Result<
        &Agent,
        QuipayError,
    >)
        ensures
            match r {
                Ok(agent) => self@.agent_check(caller, agent_address) is Ok && agent@
                    == self@.agents[agent_address],
                Err(e) => self@.agent_check(caller, agent_address) == Err::<(), QuipayError>(e),
            },
    {
        if let Err(e) = self.check_admin(caller) {
            return Err(e);
        }
        match self.agents.get(agent_address) {
            None => Err(QuipayError::AgentNotFound),
            Some(agent) => Ok(agent),
        }
    }

    /// Registers the agent at `agent_address` with `permissions`, as of
    /// `now`, in place of any agent registered there before.
    ///
    /// Only the administrator may: fails with `NotInitialized` if there is
    /// none and with `Unauthorized` if `caller` is not the administrator.
    pub fn register_agent(
        &mut self,
        caller: Address,
        agent_address: Address,
        permissions: Vec<Permission>,
        now: u64,
    ) -> (r: Result<(), QuipayError>)
        ensures
            final(self)@ == old(self)@.register_agent(caller, agent_address, permissions@, now).0,
            r == old(self)@.register_agent(caller, agent_address, permissions@, now).1,
    {
        if let Err(e) = self.check_admin(caller) {
            return Err(e);
        }
        self.file(Agent { address: agent_address, permissions, registered_at: now });
        self.report(GatewayEvent::AgentRegistered { agent: agent_address });
        Ok(())
    }

    /// Removes the agent at `agent_address`, if there is one.
    ///
    /// Only the administrator may: fails with `NotInitialized` if there is
    /// none and with `Unauthorized` if `caller` is not the administrator.
    pub fn revoke_agent(&mut self, caller: Address, agent_address: Address) -> (r: Result<
        (),
        QuipayError,
    >)
        ensures
            final(self)@ == old(self)@.revoke_agent(caller, agent_address).0,
            r == old(self)@.revoke_agent(caller, agent_address).1,
    {
        proof {
            use_type_invariant(&*self);
        }
        if let Err(e) = self.check_admin(caller) {
            return Err(e);
        }
        let ghost before = self.agents@;
        let mut agents: AddressMap<Agent> = AddressMap::new();
        std::mem::swap(&mut agents, &mut self.agents);
        agents.remove(agent_address);
        proof {
            assert(agents@.map_values(|agent: Agent| agent@) =~= before.map_values(
                |agent: Agent| agent@,
            ).remove(agent_address));
        }
        self.agents = agents;
        self.report(GatewayEvent::AgentRevoked { agent: agent_address });
        Ok(())
    }

    /// Replaces the permissions of the agent at `agent_address`.
    ///
    /// Only the administrator may: fails with `NotInitialized` if there is
    /// none and with `Unauthorized` if `caller` is not the administrator;
    /// fails with `AgentNotFound` if no agent is registered there.
    pub fn set_agent_permissions(
        &mut self,
        caller: Address,
        agent_address: Address,
        permissions: Vec<Permission>,
    ) -> (r: Result<(), QuipayError>)
        ensures
            final(self)@ == old(self)@.set_agent_permissions(
                caller,
                agent_address,
                permissions@,
            ).0,
            r == old(self)@.set_agent_permissions(caller, agent_address, permissions@).1,
    {
        proof {
            use_type_invariant(&*self);
        }
        let registered_at: u64 = match self.permissions_of(caller, agent_address) {
            Err(e) => {
                return Err(e);
            },
            Ok(agent) => agent.registered_at,
        };
        self.file(Agent { address: agent_address, permissions, registered_at });
        self.report(GatewayEvent::PermissionsSet { agent: agent_address });
        Ok(())
    }

    /// Gives the agent at `agent_address` one more permission, unless it has
    /// it already.
    ///
    /// Only the administrator may: fails with `NotInitialized` if there is
    /// none and with `Unauthorized` if `caller` is not the administrator;
    /// fails with `AgentNotFound` if no agent is registered there.
    pub fn grant_permission(
        &mut self,
        caller: Address,
        agent_address: Address,
        permission: Permission,
    ) -> (r: Result<(), QuipayError>)
        ensures
            final(self)@ == old(self)@.grant_permission(caller, agent_address, permission).0,
            r == old(self)@.grant_permission(caller, agent_address, permission).1,
    {
        proof {
            use_type_invariant(&*self);
        }
        let changed = match self.permissions_of(caller, agent_address) {
            Err(e) => {
                return Err(e);
            },
            Ok(agent) => Agent {
                address: agent_address,
                permissions: grant(&agent.permissions, permission),
                registered_at: agent.registered_at,
            },
        };
        self.file(changed);
        self.report(GatewayEvent::PermissionGranted { agent: agent_address, permission });
        Ok(())
    }

    /// Takes `permission` away from the agent at `agent_address`.
    ///
    /// Only the administrator may: fails with `NotInitialized` if there is
    /// none and with `Unauthorized` if `caller` is not the administrator;
    /// fails with `AgentNotFound` if no agent is registered there.
    pub fn revoke_permission(
        &mut self,
        caller: Address,
        agent_address: Address,
        permission: Permission,
    ) -> (r: Result<(), QuipayError>)
        ensures
            final(self)@ == old(self)@.revoke_permission(caller, agent_address, permission).0,
            r == old(self)@.revoke_permission(caller, agent_address, permission).1,
    {
        proof {
            use_type_invariant(&*self);
        }
        let changed = match self.permissions_of(caller, agent_address) {
            Err(e) => {
                return Err(e);
            },
            Ok(agent) => Agent {
                address: agent_address,
                permissions: revoke(&agent.permissions, permission),
                registered_at: agent.registered_at,
            },
        };
        self.file(changed);
        self.report(GatewayEvent::PermissionRevoked { agent: agent_address, permission });
        Ok(())
    }

    /// Whether an agent is registered at `agent_address` and holds `action`.
    pub fn is_authorized(&self, agent_address: Address, action: Permission) -> (r: bool)
        ensures
            r == self@.is_authorized(agent_address, action),
    {
        match self.agents.get(agent_address) {
            Some(agent) => holds(&agent.permissions, action),
            None => false,
        }
    }

    /// Accepts an automated action of `agent`. Fails with
    /// `InsufficientPermissions` unless the agent is registered and holds
    /// `action`.
    pub fn execute_automation(&mut self, agent: Address, action: Permission) -> (r: Result<
        (),
        QuipayError,
    >)
        ensures
            final(self)@ == old(self)@.execute_automation(agent, action).0,
            r == old(self)@.execute_automation(agent, action).1,
    {
        if self.is_authorized(agent, action) {
            self.report(GatewayEvent::Executed { agent, action });
            Ok(())
        } else {
            Err(QuipayError::InsufficientPermissions)
        }
    }

    /// Sets the address of the stream ledger.
    ///
    /// Only the administrator may: fails with `NotInitialized` if there is
    /// none and with `Unauthorized` if `caller` is not the administrator.
    pub fn set_payroll_stream(&mut self, caller: Address, payroll_stream: Address) -> (r: Result<
        (),
        QuipayError,
    >)
        ensures
            final(self)@ == old(self)@.set_payroll_stream(caller, payroll_stream).0,
            r == old(self)@.set_payroll_stream(caller, payroll_stream).1,
    {
        proof {
            use_type_invariant(&*self);
        }
        if let Err(e) = self.check_admin(caller) {
            return Err(e);
        }
        self.payroll_stream = Some(payroll_stream);
        Ok(())
    }

    /// The address of the stream ledger, if one is set.
    pub fn get_payroll_stream(&self) -> (r: Option<Address>)
        ensures
            r == self@.payroll_stream,
    {
        self.payroll_stream
    }

    /// The address of the stream ledger to which a call of `agent` that needs
    /// `action` is to be forwarded.
    ///
    /// Fails with `InsufficientPermissions` unless the agent is registered
    /// and holds `action`, else with `NotInitialized` if no ledger is set.
    pub fn route(&self, agent: Address, action: Permission) -> (r: Result<Address, QuipayError>)
        ensures
            r == self@.route(agent, action),
    {
        if !self.is_authorized(agent, action) {
            return Err(QuipayError::InsufficientPermissions);
        }
        match self.payroll_stream {
            None => Err(QuipayError::NotInitialized),
            Some(payroll_stream) => Ok(payroll_stream),
        }
    }

    /// Reports that the stream ledger created the stream `stream_id` at a
    /// request that the gateway forwarded for `agent`.
    ///
    /// Fails as `route` does for `CreateStream`, and then reports nothing: the
    /// gateway forwards no such request.
    pub fn report_stream_created(
        &mut self,
        agent: Address,
        employer: Address,
        stream_id: u64,
        worker: Address,
        rate: i128,
        start_ts: u64,
        end_ts: u64,
    ) -> (r: Result<(), QuipayError>)
        ensures
            final(self)@ == old(self)@.report_forwarded(
                agent,
                Permission::CreateStream,
                GatewayEvent::StreamCreated {
                    agent,
                    employer,
                    stream_id,
                    worker,
                    rate,
                    start_ts,
                    end_ts,
                },
            ).0,
            r == old(self)@.report_forwarded(
                agent,
                Permission::CreateStream,
                GatewayEvent::StreamCreated {
                    agent,
                    employer,
                    stream_id,
                    worker,
                    rate,
                    start_ts,
                    end_ts,
                },
            ).1,
    {
        if let Err(e) = self.route(agent, Permission::CreateStream) {
            return Err(e);
        }
        self.report(
            GatewayEvent::StreamCreated {
                agent,
                employer,
                stream_id,
                worker,
                rate,
                start_ts,
                end_ts,
            },
        );
        Ok(())
    }

    /// Reports that the stream ledger canceled the stream `stream_id` at a
    /// request that the gateway forwarded for `agent`.
    ///
    /// Fails as `route` does for `CancelStream`, and then reports nothing: the
    /// gateway forwards no such request.
    pub fn report_stream_canceled(
        &mut self,
        agent: Address,
        employer: Address,
        stream_id: u64,
    ) -> (r: Result<(), QuipayError>)
        ensures
            final(self)@ == old(self)@.report_forwarded(
                agent,
                Permission::CancelStream,
                GatewayEvent::StreamCanceled { agent, employer, stream_id },
            ).0,
            r == old(self)@.report_forwarded(
                agent,
                Permission::CancelStream,
                GatewayEvent::StreamCanceled { agent, employer, stream_id },
            ).1,
    {
        if let Err(e) = self.route(agent, Permission::CancelStream) {
            return Err(e);
        }
        self.report(GatewayEvent::StreamCanceled { agent, employer, stream_id });
        Ok(())
    }

    /// Creates a stream on `ledger` for `agent`, on behalf of `employer`.
    ///
    /// `this` is the gateway's own address, under which the ledger sees the
    /// call; `ledger` is the stream ledger at the address that is set;
    /// `allocation` is the custodian's answer to the request to allocate the
    /// stream's total. Fails with `InsufficientPermissions` unless the agent
    /// holds `CreateStream`, else with `NotInitialized` if no ledger is set;
    /// the ledger is then left alone. Otherwise the outcome is that of the
    /// ledger's `create_stream_via_gateway`, and where that is a success the
    /// gateway reports the creation, with the agent that asked for it.
    pub fn agent_create_stream(
        &mut self,
        ledger: &mut PayrollStream,
        this: Address,
        agent: Address,
        employer: Address,
        worker: Address,
        token: Address,
        rate: i128,
        cliff_ts: u64,
        start_ts: u64,
        end_ts: u64,
        allocation: Result<(), QuipayError>,
    ) -> (r: Result<u64, QuipayError>)
        requires
            old(ledger)@.config.next_id < u64::MAX,
        ensures
            match old(self)@.route(agent, Permission::CreateStream) {
                Err(e) => r == Err::<u64, QuipayError>(e) && final(ledger)@ == old(ledger)@,
                Ok(_) => {
                    &&& final(ledger)@ == old(ledger)@.create_stream_via_gateway(
                        this,
                        employer,
                        worker,
                        token,
                        rate,
                        cliff_ts,
                        start_ts,
                        end_ts,
                        allocation,
                    ).0
                    &&& r == old(ledger)@.create_stream_via_gateway(
                        this,
                        employer,
                        worker,
                        token,
                        rate,
                        cliff_ts,
                        start_ts,
                        end_ts,
                        allocation,
                    ).1
                },
            },
            final(self)@ == (match r {
                Ok(stream_id) => old(self)@.reporting(
                    GatewayEvent::StreamCreated {
                        agent,
                        employer,
                        stream_id,
                        worker,
                        rate,
                        start_ts,
                        end_ts,
                    },
                ),
                Err(_) => old(self)@,
            }),
            old(ledger)@.wf() ==> final(ledger)@.wf(),
    {
        if let Err(e) = self.route(agent, Permission::CreateStream) {
            return Err(e);
        }
        let r = ledger.create_stream_via_gateway(
            this,
            employer,
            worker,
            token,
            rate,
            cliff_ts,
            start_ts,
            end_ts,
            allocation,
        );
        if let Ok(stream_id) = r {
            let _ = self.report_stream_created(
                agent,
                employer,
                stream_id,
                worker,
                rate,
                start_ts,
                end_ts,
            );
        }
        r
    }

    /// Cancels a stream on `ledger` for `agent`, on behalf of `employer`.
    ///
    /// `this` is the gateway's own address, under which the ledger sees the
    /// call; `ledger` is the stream ledger at the address that is set;
    /// `payout` is the custodian's answer to the request to pay out the
    /// settlement. Fails with `InsufficientPermissions` unless the agent holds
    /// `CancelStream`, else with `NotInitialized` if no ledger is set; the
    /// ledger is then left alone. Otherwise the outcome is that of the
    /// ledger's `cancel_stream_via_gateway`, and where that is a success the
    /// gateway reports the cancellation, with the agent that asked for it.
    pub fn agent_cancel_stream(
        &mut self,
        ledger: &mut PayrollStream,
        this: Address,
        agent: Address,
        stream_id: u64,
        employer: Address,
        now: u64,
        payout: Result<(), QuipayError>,
    ) -> (r: Result<Settlement, QuipayError>)
        ensures
            match old(self)@.route(agent, Permission::CancelStream) {
                Err(e) => r == Err::<Settlement, QuipayError>(e) && final(ledger)@ == old(ledger)@,
                Ok(_) => {
                    &&& final(ledger)@ == old(ledger)@.cancel_stream_via_gateway(
                        this,
                        stream_id,
                        employer,
                        now,
                        payout,
                    ).0
                    &&& r == old(ledger)@.cancel_stream_via_gateway(
                        this,
                        stream_id,
                        employer,
                        now,
                        payout,
                    ).1
                },
            },
            final(self)@ == (match r {
                Ok(_) => old(self)@.reporting(
                    GatewayEvent::StreamCanceled { agent, employer, stream_id },
                ),
                Err(_) => old(self)@,
            }),
            old(ledger)@.wf() ==> final(ledger)@.wf(),
    {
        if let Err(e) = self.route(agent, Permission::CancelStream) {
            return Err(e);
        }
        let r = ledger.cancel_stream_via_gateway(this, stream_id, employer, now, payout);
        if r.is_ok() {
            let _ = self.report_stream_canceled(agent, employer, stream_id);
        }
        r
    }
}

} // verus!
