use ndi::bindings::FindCreateT;
use ndi::bindings::SourceT;
use ndi::Find;
use ndi::FindBuilder;
use ndi::HandleKind;
use ndi::NDIError;
use ndi::NativeCall;
use ndi::Registry;
use ndi::SearchAction;

fn named(name: &str) -> SourceT {
    SourceT { p_ndi_name: Some(name.as_bytes().to_vec()), p_url_address: None }
}

#[test]
fn find_settings_defaults() {
    assert_eq!(
        FindBuilder::new().settings(),
        Ok(FindCreateT { show_local_sources: true, p_groups: None, p_extra_ips: None })
    );
}

#[test]
fn find_settings_as_chosen() {
    let b = FindBuilder::new()
        .show_local_sources(false)
        .groups("cameras,studio 1".to_string())
        .extra_ips("10.0.0.1,10.0.0.2".to_string());
    assert_eq!(
        b.settings(),
        Ok(FindCreateT {
            show_local_sources: false,
            p_groups: Some("cameras,studio 1".to_string()),
            p_extra_ips: Some("10.0.0.1,10.0.0.2".to_string()),
        })
    );
    let b = b.show_local_sources(true);
    assert_eq!(b.settings().unwrap().show_local_sources, true);
    assert_eq!(b.settings().unwrap().p_groups, Some("cameras,studio 1".to_string()));
}

#[test]
fn find_settings_refuse_a_zero_byte() {
    assert_eq!(
        FindBuilder::new().groups("a\u{0}".to_string()).settings(),
        Err(NDIError::InteriorNul)
    );
    assert_eq!(
        FindBuilder::new().extra_ips("\u{0}".to_string()).settings(),
        Err(NDIError::InteriorNul)
    );
}

#[test]
fn find_build_refuses_what_settings_refuse() {
    let mut r = Registry::new();
    assert_eq!(
        FindBuilder::new().groups("a\u{0}".to_string()).build(&mut r, 0x100).err(),
        Some(NDIError::InteriorNul)
    );
    assert_eq!(
        FindBuilder::new().extra_ips("\u{0}1".to_string()).build(&mut r, 0x100).err(),
        Some(NDIError::InteriorNul)
    );
    assert_eq!(
        FindBuilder::new().groups("\u{0}".to_string()).build(&mut r, 0).err(),
        Some(NDIError::InteriorNul)
    );
    assert!(r.is_idle());
    assert!(FindBuilder::new().groups("a".to_string()).build(&mut r, 0x100).is_ok());
    assert!(r.is_held(0x100));
}

#[test]
fn find_build_fails_on_a_null_handle() {
    let mut r = Registry::new();
    assert_eq!(FindBuilder::new().build(&mut r, 0).err(), Some(NDIError::FindCreateError));
    assert_eq!(Find::new(&mut r, 0).err(), Some(NDIError::FindCreateError));
    assert!(r.is_idle());
}

#[test]
fn find_build_registers_the_handle() {
    let mut r = Registry::new();
    let find = FindBuilder::new().build(&mut r, 0x100).unwrap();
    assert_eq!(find.instance(), 0x100);
    assert!(r.is_held(0x100));
    assert_eq!(r.kind_of(0x100), Some(HandleKind::Find));
    assert_eq!(Find::new(&mut r, 0x100).err(), Some(NDIError::FindCreateError));

    assert_eq!(
        find.close(&mut r),
        Ok(vec![NativeCall::Destroy { kind: HandleKind::Find, instance: 0x100 }])
    );
    assert!(r.is_idle());
}

#[test]
fn discovery_timeout() {
    let mut r = Registry::new();
    let find = FindBuilder::new().build(&mut r, 0x100).unwrap();
    let mut search = find.current_sources(50);
    assert_eq!(search.action(), SearchAction::ReadClock { yield_first: false });

    let mut polls: u32 = 0;
    let mut elapsed: u128 = 0;
    loop {
        match search.action() {
            SearchAction::ReadClock { .. } => {
                search.on_clock(elapsed);
                elapsed += 7;
            }
            SearchAction::GetCurrentSources { instance } => {
                assert_eq!(instance, 0x100);
                polls += 1;
                search.on_sources(&Vec::new());
            }
            SearchAction::Finish => break,
        }
    }
    assert!(search.finished());
    assert_eq!(polls, 8);
    assert_eq!(search.result(), Some(Err(NDIError::FindSourcesTimeout)));
}

#[test]
fn search_times_out_only_past_the_timeout() {
    let mut r = Registry::new();
    let find = Find::new(&mut r, 0x100).unwrap();

    let mut search = find.current_sources(50);
    assert_eq!(search.on_clock(50), SearchAction::GetCurrentSources { instance: 0x100 });
    assert!(!search.finished());
    assert_eq!(search.on_sources(&Vec::new()), SearchAction::ReadClock { yield_first: true });
    assert_eq!(search.on_clock(51), SearchAction::Finish);
    assert_eq!(search.result(), Some(Err(NDIError::FindSourcesTimeout)));

    let mut search = find.current_sources(0);
    assert_eq!(search.on_clock(0), SearchAction::GetCurrentSources { instance: 0x100 });
    let mut search = find.current_sources(0);
    assert_eq!(search.on_clock(1), SearchAction::Finish);
}

#[test]
fn search_ends_with_the_sources_in_native_order() {
    let mut r = Registry::new();
    let find = Find::new(&mut r, 0x100).unwrap();
    let mut search = find.current_sources(1000);
    assert_eq!(search.on_clock(0), SearchAction::GetCurrentSources { instance: 0x100 });
    assert_eq!(search.on_sources(&Vec::new()), SearchAction::ReadClock { yield_first: true });
    assert_eq!(search.on_clock(3), SearchAction::GetCurrentSources { instance: 0x100 });
    let polled = vec![named("B (two)"), named("A (one)"), named("B (two)")];
    assert_eq!(search.on_sources(&polled), SearchAction::Finish);
    assert!(search.finished());

    let found = search.result().unwrap().unwrap();
    assert_eq!(found.len(), 3);
    assert_eq!(found[0].get_name(), Ok("B (two)".to_string()));
    assert_eq!(found[1].get_name(), Ok("A (one)".to_string()));
    assert_eq!(found[2].get_name(), Ok("B (two)".to_string()));
    assert_eq!(found[1].as_binding(), &named("A (one)"));
}

#[test]
fn search_ignores_what_it_did_not_ask_for() {
    let mut r = Registry::new();
    let find = Find::new(&mut r, 0x100).unwrap();
    let mut search = find.current_sources(10);
    assert_eq!(
        search.on_sources(&vec![named("early")]),
        SearchAction::ReadClock { yield_first: false }
    );
    assert_eq!(search.on_clock(5), SearchAction::GetCurrentSources { instance: 0x100 });
    assert_eq!(search.on_clock(500), SearchAction::GetCurrentSources { instance: 0x100 });
    assert_eq!(search.on_sources(&vec![named("late")]), SearchAction::Finish);
    assert_eq!(search.on_clock(500), SearchAction::Finish);
    assert_eq!(search.on_sources(&Vec::new()), SearchAction::Finish);
    let found = search.result().unwrap().unwrap();
    assert_eq!(found.len(), 1);
    assert_eq!(found[0].get_name(), Ok("late".to_string()));
}

#[test]
fn unfinished_search_has_no_result() {
    let mut r = Registry::new();
    let find = Find::new(&mut r, 0x100).unwrap();
    assert_eq!(find.current_sources(10).result(), None);
    let mut search = find.current_sources(10);
    search.on_clock(1);
    assert_eq!(search.result(), None);
}

#[test]
fn sources_outlive_their_finder() {
    let mut r = Registry::new();
    let find = Find::new(&mut r, 0x100).unwrap();
    let mut search = find.current_sources(10);
    search.on_clock(0);
    search.on_sources(&vec![named("STUDIO (Main)")]);
    let found = search.result().unwrap().unwrap();
    assert!(find.close(&mut r).is_ok());
    assert!(r.is_idle());
    assert_eq!(found[0].get_name(), Ok("STUDIO (Main)".to_string()));
}
