use proptest::strategy::{Strategy, ValueTree};
use proptest::test_runner::TestRunner;
use quipay::{
    Address, Agent, AutomationGateway, GatewayEvent, PayrollStream, Permission, QuipayError,
    Settlement, StreamEvent, StreamStatus,
};

fn admin() -> Address {
    Address::account(0, 1)
}

fn employer() -> Address {
    Address::account(0, 2)
}

fn worker() -> Address {
    Address::account(0, 3)
}

fn token() -> Address {
    Address::contract(0, 4)
}

fn agent() -> Address {
    Address::account(0, 5)
}

fn gateway_id() -> Address {
    Address::contract(0, 9)
}

fn payroll_stream_id() -> Address {
    Address::contract(0, 10)
}

/// A gateway and a stream ledger that know each other.
fn deployed() -> (AutomationGateway, PayrollStream) {
    let mut payroll = PayrollStream::new();
    payroll.init(admin()).unwrap();

    let mut gateway = AutomationGateway::new();
    gateway.init(admin()).unwrap();
    gateway.set_payroll_stream(admin(), payroll_stream_id()).unwrap();
    payroll.set_gateway(admin(), gateway_id()).unwrap();
    (gateway, payroll)
}

#[test]
fn test_registration_and_auth() {
    let mut client = AutomationGateway::new();
    client.init(admin()).unwrap();

    // 1. Initial state: not authorized
    assert!(!client.is_authorized(agent(), Permission::CreateStream));

    // 2. Register agent with specific permission
    client.register_agent(admin(), agent(), vec![Permission::CreateStream], 0).unwrap();
    assert!(client.is_authorized(agent(), Permission::CreateStream));
    assert!(!client.is_authorized(agent(), Permission::RebalanceTreasury));

    // 3. Registering again overwrites permissions
    client.register_agent(admin(), agent(), vec![Permission::RebalanceTreasury], 0).unwrap();
    assert!(!client.is_authorized(agent(), Permission::CreateStream));
    assert!(client.is_authorized(agent(), Permission::RebalanceTreasury));

    // 4. Revoke agent
    client.revoke_agent(admin(), agent()).unwrap();
    assert!(!client.is_authorized(agent(), Permission::RebalanceTreasury));
}

#[test]
fn test_already_initialized() {
    let mut client = AutomationGateway::new();

    client.init(admin()).unwrap();
    let result = client.init(admin());

    assert_eq!(result, Err(QuipayError::AlreadyInitialized));
}

#[test]
fn test_execute_automation_auth() {
    let mut client = AutomationGateway::new();

    client.init(admin()).unwrap();
    client.register_agent(admin(), agent(), vec![Permission::CreateStream], 0).unwrap();

    // Authorized call
    client.execute_automation(agent(), Permission::CreateStream).unwrap();
}

#[test]
fn test_execute_automation_unauthorized() {
    let mut client = AutomationGateway::new();

    client.init(admin()).unwrap();
    client.register_agent(admin(), agent(), vec![Permission::RebalanceTreasury], 0).unwrap();

    // Unauthorized action
    let result = client.execute_automation(agent(), Permission::CreateStream);

    assert_eq!(result, Err(QuipayError::InsufficientPermissions));
}

#[test]
fn test_agent_create_stream_authorized() {
    let (mut gateway_client, mut payroll) = deployed();

    // Register agent with CreateStream permission
    gateway_client
        .register_agent(admin(), agent(), vec![Permission::CreateStream], 0)
        .unwrap();

    // Agent creates stream on behalf of employer
    let stream_id = gateway_client
        .agent_create_stream(
            &mut payroll,
            gateway_id(),
            agent(),
            employer(),
            worker(),
            token(),
            100i128,
            0u64,
            10u64,
            100u64,
            Ok(()),
        )
        .unwrap();

    assert_eq!(stream_id, 1u64);
    let stream = payroll.get_stream(stream_id).unwrap();
    assert_eq!(stream.total_amount, 9000);
    assert_eq!(stream.employer, employer());
    assert_eq!(stream.worker, worker());
}

#[test]
fn test_agent_create_stream_unauthorized() {
    let (mut gateway_client, mut payroll) = deployed();

    // Register agent with ONLY CancelStream permission (not CreateStream)
    gateway_client
        .register_agent(admin(), agent(), vec![Permission::CancelStream], 0)
        .unwrap();

    // Agent tries to create stream but is unauthorized
    let result = gateway_client.agent_create_stream(
        &mut payroll,
        gateway_id(),
        agent(),
        employer(),
        worker(),
        token(),
        100i128,
        0u64,
        10u64,
        100u64,
        Ok(()),
    );

    assert_eq!(result, Err(QuipayError::InsufficientPermissions));
    assert_eq!(payroll.get_stream(1), None);
    assert_eq!(payroll.config().next_id, 1);
}

#[test]
fn test_agent_cancel_stream_authorized() {
    let (mut gateway_client, mut payroll) = deployed();

    // Register agent with both CreateStream and CancelStream permissions
    gateway_client
        .register_agent(
            admin(),
            agent(),
            vec![Permission::CreateStream, Permission::CancelStream],
            0,
        )
        .unwrap();

    // First, create a stream
    let stream_id = gateway_client
        .agent_create_stream(
            &mut payroll,
            gateway_id(),
            agent(),
            employer(),
            worker(),
            token(),
            100i128,
            0u64,
            10u64,
            100u64,
            Ok(()),
        )
        .unwrap();

    // Then cancel it
    let split = gateway_client
        .agent_cancel_stream(&mut payroll, gateway_id(), agent(), stream_id, employer(), 0, Ok(()))
        .unwrap();
    assert_eq!(split, Settlement { to_worker: 0, to_employer: 9000 });
    assert_eq!(payroll.get_stream(stream_id).unwrap().status, StreamStatus::Canceled);
}

#[test]
fn test_agent_cancel_stream_unauthorized() {
    let (mut gateway_client, mut payroll) = deployed();

    // Register agent with ONLY CreateStream permission (not CancelStream)
    gateway_client
        .register_agent(admin(), agent(), vec![Permission::CreateStream], 0)
        .unwrap();

    // First, create a stream
    let stream_id = gateway_client
        .agent_create_stream(
            &mut payroll,
            gateway_id(),
            agent(),
            employer(),
            worker(),
            token(),
            100i128,
            0u64,
            10u64,
            100u64,
            Ok(()),
        )
        .unwrap();

    // Agent tries to cancel stream but is unauthorized
    let result = gateway_client.agent_cancel_stream(
        &mut payroll,
        gateway_id(),
        agent(),
        stream_id,
        employer(),
        0,
        Ok(()),
    );

    assert_eq!(result, Err(QuipayError::InsufficientPermissions));
    assert_eq!(payroll.get_stream(stream_id).unwrap().status, StreamStatus::Active);
}

#[test]
fn test_revoked_agent_blocked() {
    let (mut gateway_client, mut payroll) = deployed();

    // Register agent with CreateStream permission
    gateway_client
        .register_agent(admin(), agent(), vec![Permission::CreateStream], 0)
        .unwrap();

    // Revoke the agent
    gateway_client.revoke_agent(admin(), agent()).unwrap();

    // Revoked agent tries to create stream
    let result = gateway_client.agent_create_stream(
        &mut payroll,
        gateway_id(),
        agent(),
        employer(),
        worker(),
        token(),
        100i128,
        0u64,
        10u64,
        100u64,
        Ok(()),
    );

    assert_eq!(result, Err(QuipayError::InsufficientPermissions));
}

#[test]
fn test_create_stream_permission_types() {
    let agent_create = Address::account(0, 11);
    let agent_cancel = Address::account(0, 12);
    let agent_both = Address::account(0, 13);

    let mut gateway_client = AutomationGateway::new();
    gateway_client.init(admin()).unwrap();

    // Register agents with different permissions
    gateway_client
        .register_agent(admin(), agent_create, vec![Permission::CreateStream], 0)
        .unwrap();
    gateway_client
        .register_agent(admin(), agent_cancel, vec![Permission::CancelStream], 0)
        .unwrap();
    gateway_client
        .register_agent(
            admin(),
            agent_both,
            vec![Permission::CreateStream, Permission::CancelStream],
            0,
        )
        .unwrap();

    // Verify permissions
    assert!(gateway_client.is_authorized(agent_create, Permission::CreateStream));
    assert!(!gateway_client.is_authorized(agent_create, Permission::CancelStream));

    assert!(!gateway_client.is_authorized(agent_cancel, Permission::CreateStream));
    assert!(gateway_client.is_authorized(agent_cancel, Permission::CancelStream));

    assert!(gateway_client.is_authorized(agent_both, Permission::CreateStream));
    assert!(gateway_client.is_authorized(agent_both, Permission::CancelStream));
}

#[test]
fn test_admin_modify_permissions() {
    let mut client = AutomationGateway::new();

    client.init(admin()).unwrap();
    client.register_agent(admin(), agent(), vec![Permission::CreateStream], 0).unwrap();

    client.grant_permission(admin(), agent(), Permission::CancelStream).unwrap();
    assert!(client.is_authorized(agent(), Permission::CreateStream));
    assert!(client.is_authorized(agent(), Permission::CancelStream));

    client.revoke_permission(admin(), agent(), Permission::CreateStream).unwrap();
    assert!(!client.is_authorized(agent(), Permission::CreateStream));
    assert!(client.is_authorized(agent(), Permission::CancelStream));

    client
        .set_agent_permissions(admin(), agent(), vec![Permission::RebalanceTreasury])
        .unwrap();
    assert!(!client.is_authorized(agent(), Permission::CancelStream));
    assert!(client.is_authorized(agent(), Permission::RebalanceTreasury));
}

#[test]
fn granting_twice_adds_once_and_revoking_removes_every_occurrence() {
    let mut client = AutomationGateway::new();
    client.init(admin()).unwrap();
    client
        .register_agent(
            admin(),
            agent(),
            vec![Permission::CancelStream, Permission::CreateStream, Permission::CancelStream],
            42,
        )
        .unwrap();

    client.grant_permission(admin(), agent(), Permission::CreateStream).unwrap();
    assert_eq!(
        client.get_agent(agent()).unwrap().permissions,
        vec![Permission::CancelStream, Permission::CreateStream, Permission::CancelStream]
    );
    client.grant_permission(admin(), agent(), Permission::ManageTreasury).unwrap();
    assert_eq!(
        client.get_agent(agent()).unwrap().permissions,
        vec![
            Permission::CancelStream,
            Permission::CreateStream,
            Permission::CancelStream,
            Permission::ManageTreasury
        ]
    );
    client.revoke_permission(admin(), agent(), Permission::CancelStream).unwrap();
    assert_eq!(
        client.get_agent(agent()).unwrap().permissions,
        vec![Permission::CreateStream, Permission::ManageTreasury]
    );
    client.revoke_permission(admin(), agent(), Permission::RegisterAgent).unwrap();
    let kept = client.get_agent(agent()).unwrap();
    assert_eq!(kept.permissions, vec![Permission::CreateStream, Permission::ManageTreasury]);
    assert_eq!(kept.address, agent());
    assert_eq!(kept.registered_at, 42);
}

#[test]
fn only_the_administrator_manages_agents() {
    let mut client = AutomationGateway::new();
    let none = Err(QuipayError::NotInitialized);
    assert_eq!(client.get_admin(), Err(QuipayError::NotInitialized));
    assert_eq!(client.register_agent(admin(), agent(), vec![], 0), none);
    assert_eq!(client.revoke_agent(admin(), agent()), none);
    assert_eq!(client.set_agent_permissions(admin(), agent(), vec![]), none);
    assert_eq!(client.grant_permission(admin(), agent(), Permission::CreateStream), none);
    assert_eq!(client.revoke_permission(admin(), agent(), Permission::CreateStream), none);
    assert_eq!(client.set_payroll_stream(admin(), payroll_stream_id()), none);

    client.init(admin()).unwrap();
    assert_eq!(client.get_admin(), Ok(admin()));
    let stranger = Err(QuipayError::Unauthorized);
    assert_eq!(
        client.register_agent(agent(), agent(), vec![Permission::CreateStream], 0),
        stranger
    );
    assert!(!client.is_authorized(agent(), Permission::CreateStream));
    assert!(client.get_agent(agent()).is_none());
    assert_eq!(client.revoke_agent(agent(), agent()), stranger);
    assert_eq!(client.set_agent_permissions(agent(), agent(), vec![]), stranger);
    assert_eq!(client.grant_permission(agent(), agent(), Permission::CreateStream), stranger);
    assert_eq!(client.revoke_permission(agent(), agent(), Permission::CreateStream), stranger);
    assert_eq!(client.set_payroll_stream(agent(), payroll_stream_id()), stranger);
    assert_eq!(client.get_payroll_stream(), None);

    let unknown = Err(QuipayError::AgentNotFound);
    assert_eq!(client.set_agent_permissions(admin(), agent(), vec![]), unknown);
    assert_eq!(client.grant_permission(admin(), agent(), Permission::CreateStream), unknown);
    assert_eq!(client.revoke_permission(admin(), agent(), Permission::CreateStream), unknown);
    assert_eq!(client.revoke_agent(admin(), agent()), Ok(()));
}

#[test]
fn a_call_is_routed_only_for_an_agent_with_the_permission() {
    let mut client = AutomationGateway::new();
    client.init(admin()).unwrap();
    client.register_agent(admin(), agent(), vec![Permission::CreateStream], 0).unwrap();
    assert_eq!(
        client.route(agent(), Permission::CancelStream),
        Err(QuipayError::InsufficientPermissions)
    );
    assert_eq!(
        client.route(agent(), Permission::CreateStream),
        Err(QuipayError::NotInitialized)
    );
    client.set_payroll_stream(admin(), payroll_stream_id()).unwrap();
    assert_eq!(client.get_payroll_stream(), Some(payroll_stream_id()));
    assert_eq!(client.route(agent(), Permission::CreateStream), Ok(payroll_stream_id()));
    assert_eq!(
        client.route(employer(), Permission::CreateStream),
        Err(QuipayError::InsufficientPermissions)
    );
}

#[test]
fn the_ledger_does_not_take_a_gateway_it_does_not_know() {
    let (mut gateway_client, mut payroll) = deployed();
    gateway_client
        .register_agent(admin(), agent(), vec![Permission::CreateStream], 0)
        .unwrap();
    let result = gateway_client.agent_create_stream(
        &mut payroll,
        Address::contract(0, 99),
        agent(),
        employer(),
        worker(),
        token(),
        100,
        0,
        10,
        100,
        Ok(()),
    );
    assert_eq!(result, Err(QuipayError::Unauthorized));
}

#[test]
fn every_permission_has_its_own_code() {
    let all = [
        Permission::ExecutePayroll,
        Permission::ManageTreasury,
        Permission::RegisterAgent,
        Permission::CreateStream,
        Permission::CancelStream,
        Permission::RebalanceTreasury,
    ];
    for (i, permission) in all.iter().enumerate() {
        assert_eq!(permission.code(), i as u32 + 1);
        assert_eq!(Permission::from_code(permission.code()), Some(*permission));
    }
    assert_eq!(Permission::from_code(0), None);
    assert_eq!(Permission::from_code(7), None);
    assert_eq!(Permission::from_code(u32::MAX), None);
}

#[test]
fn a_gateway_is_restored_from_its_settings_and_one_agent() {
    let mut client = AutomationGateway::new();
    client.init(admin()).unwrap();
    client.set_payroll_stream(admin(), payroll_stream_id()).unwrap();
    client.register_agent(admin(), agent(), vec![Permission::CreateStream], 5).unwrap();

    let again = AutomationGateway::restore(
        client.get_admin().ok(),
        client.get_payroll_stream(),
        client.get_agent(agent()),
    );
    assert_eq!(again.get_admin(), Ok(admin()));
    assert_eq!(again.get_payroll_stream(), Some(payroll_stream_id()));
    assert!(again.is_authorized(agent(), Permission::CreateStream));
    assert!(!again.is_authorized(agent(), Permission::CancelStream));
    assert_eq!(again.get_agent(agent()).unwrap().registered_at, 5);

    let bare = AutomationGateway::restore(None, None, None);
    assert_eq!(bare.get_admin(), Err(QuipayError::NotInitialized));
    assert!(!bare.is_authorized(agent(), Permission::CreateStream));

    let copy: Agent = again.get_agent(agent()).unwrap().clone();
    assert_eq!(copy.permissions, vec![Permission::CreateStream]);
}

#[test]
fn the_gateway_reports_what_the_administrator_changes() {
    let mut client = AutomationGateway::new();
    client.init(admin()).unwrap();
    client.set_payroll_stream(admin(), payroll_stream_id()).unwrap();
    assert_eq!(client.take_events(), vec![]);

    client.register_agent(admin(), agent(), vec![Permission::CreateStream], 0).unwrap();
    client.grant_permission(admin(), agent(), Permission::CancelStream).unwrap();
    client.grant_permission(admin(), agent(), Permission::CancelStream).unwrap();
    client.revoke_permission(admin(), agent(), Permission::CreateStream).unwrap();
    client.set_agent_permissions(admin(), agent(), vec![]).unwrap();
    client.execute_automation(agent(), Permission::CreateStream).unwrap_err();
    client.set_agent_permissions(admin(), agent(), vec![Permission::ExecutePayroll]).unwrap();
    client.execute_automation(agent(), Permission::ExecutePayroll).unwrap();
    client.revoke_agent(admin(), agent()).unwrap();
    // What fails is not reported.
    client.grant_permission(admin(), agent(), Permission::CancelStream).unwrap_err();
    client.register_agent(agent(), agent(), vec![], 0).unwrap_err();

    assert_eq!(
        client.take_events(),
        vec![
            GatewayEvent::AgentRegistered { agent: agent() },
            GatewayEvent::PermissionGranted { agent: agent(), permission: Permission::CancelStream },
            GatewayEvent::PermissionGranted { agent: agent(), permission: Permission::CancelStream },
            GatewayEvent::PermissionRevoked { agent: agent(), permission: Permission::CreateStream },
            GatewayEvent::PermissionsSet { agent: agent() },
            GatewayEvent::PermissionsSet { agent: agent() },
            GatewayEvent::Executed { agent: agent(), action: Permission::ExecutePayroll },
            GatewayEvent::AgentRevoked { agent: agent() },
        ]
    );
    assert_eq!(client.take_events(), vec![]);
}

#[test]
fn a_stream_made_through_the_gateway_is_reported_with_its_agent() {
    let (mut gateway_client, mut payroll) = deployed();
    gateway_client
        .register_agent(
            admin(),
            agent(),
            vec![Permission::CreateStream, Permission::CancelStream],
            0,
        )
        .unwrap();
    gateway_client.take_events();

    // A refusal of the ledger is handed on and not reported.
    let refused = gateway_client.agent_create_stream(
        &mut payroll,
        gateway_id(),
        agent(),
        employer(),
        worker(),
        token(),
        0,
        0,
        10,
        100,
        Ok(()),
    );
    assert_eq!(refused, Err(QuipayError::InvalidWindow));
    assert_eq!(gateway_client.take_events(), vec![]);
    assert_eq!(payroll.take_events(), vec![]);

    let id = gateway_client
        .agent_create_stream(
            &mut payroll,
            gateway_id(),
            agent(),
            employer(),
            worker(),
            token(),
            100,
            20,
            10,
            100,
            Ok(()),
        )
        .unwrap();
    gateway_client
        .agent_cancel_stream(&mut payroll, gateway_id(), agent(), id, employer(), 55, Ok(()))
        .unwrap();

    assert_eq!(
        gateway_client.take_events(),
        vec![
            GatewayEvent::StreamCreated {
                agent: agent(),
                employer: employer(),
                stream_id: id,
                worker: worker(),
                rate: 100,
                start_ts: 10,
                end_ts: 100,
            },
            GatewayEvent::StreamCanceled { agent: agent(), employer: employer(), stream_id: id },
        ]
    );
    assert_eq!(
        payroll.take_events(),
        vec![
            StreamEvent::Created {
                stream_id: id,
                employer: employer(),
                worker: worker(),
                asset: token(),
                total_amount: 9000,
                start_ts: 10,
                cliff_ts: 20,
                end_ts: 100,
            },
            StreamEvent::Canceled { stream_id: id, to_worker: 4500, to_employer: 4500 },
        ]
    );
}

#[test]
fn what_was_never_forwarded_cannot_be_reported() {
    let mut client = AutomationGateway::new();
    client.init(admin()).unwrap();
    client.register_agent(admin(), agent(), vec![Permission::CreateStream], 0).unwrap();
    client.take_events();
    assert_eq!(
        client.report_stream_created(agent(), employer(), 1, worker(), 100, 10, 100),
        Err(QuipayError::NotInitialized)
    );
    client.set_payroll_stream(admin(), payroll_stream_id()).unwrap();
    assert_eq!(
        client.report_stream_canceled(agent(), employer(), 1),
        Err(QuipayError::InsufficientPermissions)
    );
    assert_eq!(
        client.report_stream_created(employer(), employer(), 1, worker(), 100, 10, 100),
        Err(QuipayError::InsufficientPermissions)
    );
    assert_eq!(client.take_events(), vec![]);
    assert_eq!(client.report_stream_created(agent(), employer(), 1, worker(), 100, 10, 100), Ok(()));
    assert_eq!(client.take_events().len(), 1);
}

#[test]
fn permissions_are_granted_and_revoked_as_on_a_plain_list() {
    let mut runner = TestRunner::deterministic();
    for _ in 0..200 {
        let codes = proptest::collection::vec(1u32..7u32, 0..12)
            .new_tree(&mut runner)
            .unwrap()
            .current();
        let steps = proptest::collection::vec((0u32..2u32, 1u32..7u32), 0..20)
            .new_tree(&mut runner)
            .unwrap()
            .current();

        let mut expected: Vec<Permission> =
            codes.iter().map(|code| Permission::from_code(*code).unwrap()).collect();
        let mut client = AutomationGateway::new();
        client.init(admin()).unwrap();
        client.register_agent(admin(), agent(), expected.clone(), 0).unwrap();

        for (grant, code) in steps {
            let permission = Permission::from_code(code).unwrap();
            if grant == 1 {
                client.grant_permission(admin(), agent(), permission).unwrap();
                if !expected.contains(&permission) {
                    expected.push(permission);
                }
                assert!(client.is_authorized(agent(), permission));
            } else {
                client.revoke_permission(admin(), agent(), permission).unwrap();
                expected.retain(|held| *held != permission);
                assert!(!client.is_authorized(agent(), permission));
            }
            assert_eq!(client.get_agent(agent()).unwrap().permissions, expected);
            for other in 1u32..7 {
                let other = Permission::from_code(other).unwrap();
                assert_eq!(client.is_authorized(agent(), other), expected.contains(&other));
            }
        }
    }
}
