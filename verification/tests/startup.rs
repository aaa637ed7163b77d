use hyperspace_service::action::Action;
use hyperspace_service::component::Component;
use hyperspace_service::startup::Startup;

fn steps() -> Vec<Action> {
    vec![
        Action::CreateVoterState,
        Action::ReadBabeConfig {
            client: Component::Client,
        },
        Action::StartNetwork {
            starter: Component::NetworkStarter,
        },
    ]
}

#[test]
fn every_step_is_taken_in_order() {
    let mut startup: Startup<String> = Startup::new(steps());
    let mut taken = Vec::new();
    for step in steps() {
        assert_eq!(startup.next_action(), Some(&step));
        taken.push(step);
        startup.advance(Ok(()));
    }
    assert_eq!(taken, steps());
    assert_eq!(startup.next_action(), None);
    assert_eq!(startup.finish(), Some(Ok(())));
}

#[test]
fn a_failed_step_ends_the_startup() {
    let mut startup: Startup<String> = Startup::new(steps());
    startup.advance(Ok(()));
    assert!(startup.next_action().unwrap().can_fail());
    startup.advance(Err("no genesis".to_string()));
    // The network is never started.
    assert_eq!(startup.next_action(), None);
    assert_eq!(startup.finish(), Some(Err("no genesis".to_string())));
}

#[test]
fn a_startup_that_is_not_through_has_no_end() {
    let mut startup: Startup<String> = Startup::new(steps());
    startup.advance(Ok(()));
    startup.advance(Ok(()));
    assert_eq!(
        startup.next_action(),
        Some(&Action::StartNetwork {
            starter: Component::NetworkStarter
        })
    );
    assert_eq!(startup.finish(), None);
}

#[test]
fn nothing_to_do_is_done_at_once() {
    let startup: Startup<String> = Startup::new(Vec::new());
    assert_eq!(startup.next_action(), None);
    assert_eq!(startup.finish(), Some(Ok(())));
}

#[test]
fn some_steps_cannot_fail() {
    assert!(!Action::CreateVoterState.can_fail());
    assert!(!Action::CreateInherentDataProviders.can_fail());
    assert!(!Action::StartNetwork {
        starter: Component::NetworkStarter
    }
    .can_fail());
    assert!(Action::CreateFullParts {
        config: Component::Configuration
    }
    .can_fail());
    assert!(Action::CreateLightParts {
        config: Component::Configuration
    }
    .can_fail());
    assert!(Action::ReadBabeConfig {
        client: Component::Client
    }
    .can_fail());
}

#[test]
fn a_startup_ends_when_no_step_is_left() {
    for failing in 0..=steps().len() {
        let mut startup: Startup<&str> = Startup::new(steps());
        let mut taken = 0;
        while let Some(action) = startup.next_action() {
            let outcome = if taken == failing && action.can_fail() {
                Err("failed")
            } else {
                Ok(())
            };
            startup.advance(outcome);
            taken += 1;
        }
        assert!(startup.finish().is_some());
    }
}
