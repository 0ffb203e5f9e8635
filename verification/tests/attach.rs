use desktop_layer::wallpaper::{
    embed_placement, embedded_ex_style, embedded_style, examine_candidate, initial_phase,
    locate_container, step, AttachError, AttachPhase, Candidate, Event, Placement, Rect, ScanStep,
    INSERT_AFTER_BOTTOM, NULL_WINDOW, SWP_FRAMECHANGED, SWP_SHOWWINDOW, WS_CAPTION, WS_CHILD,
    WS_EX_NOACTIVATE, WS_EX_TOOLWINDOW, WS_MAXIMIZEBOX, WS_MINIMIZEBOX, WS_POPUP, WS_SYSMENU,
    WS_THICKFRAME, WS_VISIBLE,
};

fn plain_window() -> Candidate {
    Candidate { hosts_icon_view: false, trailing_container: NULL_WINDOW }
}

fn reference_window(trailing: u64) -> Candidate {
    Candidate { hosts_icon_view: true, trailing_container: trailing }
}

#[test]
fn style_of_zero_adds_child_and_visible() {
    assert_eq!(embedded_style(0), WS_CHILD | WS_VISIBLE);
    assert_eq!(embedded_style(0), 0x5000_0000);
}

#[test]
fn style_of_all_bits_clears_removed_set() {
    let removed =
        WS_CAPTION | WS_THICKFRAME | WS_MINIMIZEBOX | WS_MAXIMIZEBOX | WS_SYSMENU | WS_POPUP;
    assert_eq!(embedded_style(0xFFFF_FFFF), (0xFFFF_FFFF & !removed) | (WS_CHILD | WS_VISIBLE));
    assert_eq!(embedded_style(0xFFFF_FFFF), 0x7F30_FFFF);
}

#[test]
fn style_follows_mask_formula() {
    let removed =
        WS_CAPTION | WS_THICKFRAME | WS_MINIMIZEBOX | WS_MAXIMIZEBOX | WS_SYSMENU | WS_POPUP;
    for s in [0u32, 0xFFFF_FFFF, 0x1234_5678, WS_POPUP | WS_CAPTION, 0x0000_FFFF] {
        assert_eq!(embedded_style(s), (s & !removed) | (WS_CHILD | WS_VISIBLE));
    }
}

#[test]
fn styles_are_idempotent() {
    for s in [0u32, 0xFFFF_FFFF, 0x1234_5678, 0xDEAD_BEEF] {
        assert_eq!(embedded_style(embedded_style(s)), embedded_style(s));
        assert_eq!(embedded_ex_style(embedded_ex_style(s)), embedded_ex_style(s));
    }
}

#[test]
fn ex_style_is_pure_superset() {
    for e in [0u32, 0xFFFF_FFFF, 0x1234_5678, 0xA5A5_A5A5] {
        let r = embedded_ex_style(e);
        assert_eq!(r & e, e);
        assert_eq!(r, e | (WS_EX_NOACTIVATE | WS_EX_TOOLWINDOW));
    }
    assert_eq!(embedded_ex_style(0), 0x0800_0080);
    assert_eq!(embedded_ex_style(0xFFFF_FFFF), 0xFFFF_FFFF);
}

#[test]
fn geometry_propagates_container_extent() {
    let p = embed_placement(Rect { left: 0, top: 0, right: 1920, bottom: 1080 });
    assert_eq!(
        p,
        Placement {
            x: 0,
            y: 0,
            width: 1920,
            height: 1080,
            insert_after: INSERT_AFTER_BOTTOM,
            flags: SWP_SHOWWINDOW | SWP_FRAMECHANGED,
        }
    );
}

#[test]
fn examine_keeps_going_on_plain_window() {
    assert_eq!(examine_candidate(&plain_window()), ScanStep::Continue);
}

#[test]
fn examine_stops_on_reference_window() {
    assert_eq!(
        examine_candidate(&reference_window(42)),
        ScanStep::Stop { container: Some(42) }
    );
    assert_eq!(
        examine_candidate(&reference_window(NULL_WINDOW)),
        ScanStep::Stop { container: None }
    );
}

#[test]
fn scan_stops_at_first_match() {
    let candidates = vec![plain_window(), reference_window(42), plain_window(), plain_window()];
    assert_eq!(locate_container(&candidates), (Some(42), 2));
}

#[test]
fn scan_short_circuits_past_later_candidates() {
    // Drive the per-window examination as the enumeration driver would and
    // count how many candidates are evaluated: a match at position k stops
    // the scan after k + 1 evaluations, leaving position k + 1 untouched.
    let candidates = vec![
        plain_window(),
        plain_window(),
        reference_window(7),
        reference_window(99),
        plain_window(),
    ];
    let mut evaluated: usize = 0;
    let mut found = None;
    for c in &candidates {
        evaluated += 1;
        match examine_candidate(c) {
            ScanStep::Continue => continue,
            ScanStep::Stop { container } => {
                found = container;
                break;
            }
        }
    }
    assert_eq!(evaluated, 3);
    assert_eq!(found, Some(7));
    assert_eq!(locate_container(&candidates), (Some(7), 3));
}

#[test]
fn scan_without_match_examines_everything() {
    let candidates = vec![plain_window(), plain_window(), plain_window()];
    assert_eq!(locate_container(&candidates), (None, 3));
}

#[test]
fn scan_of_no_candidates_finds_nothing() {
    let candidates = Vec::new();
    assert_eq!(locate_container(&candidates), (None, 0));
}

#[test]
fn scan_stops_on_reference_without_container() {
    // The first icon-view host ends the scan even when no container trails
    // it; a later reference window is never consulted.
    let candidates = vec![reference_window(NULL_WINDOW), reference_window(7)];
    assert_eq!(locate_container(&candidates), (None, 1));
}

#[test]
fn machine_walks_happy_path_to_done() {
    let phase = initial_phase();
    assert_eq!(phase, AttachPhase::LocatingRoot);
    let phase = step(phase, Event::RootLocated { root: 11 });
    assert_eq!(phase, AttachPhase::Triggering { root: 11 });
    let phase = step(phase, Event::SpawnTriggered);
    assert_eq!(phase, AttachPhase::Scanning);
    let phase = step(phase, Event::ScanFinished { container: Some(42) });
    assert_eq!(phase, AttachPhase::Resolving { container: 42 });
    let phase = step(phase, Event::HandleResolved { outcome: Ok(99) });
    assert_eq!(phase, AttachPhase::ReadingStyle { window: 99, container: 42 });
    let phase = step(phase, Event::StyleRead { value: 0xFFFF_FFFF });
    assert_eq!(
        phase,
        AttachPhase::WritingStyle { window: 99, container: 42, value: 0x7F30_FFFF }
    );
    let phase = step(phase, Event::StepDone { succeeded: true });
    assert_eq!(phase, AttachPhase::ReadingExStyle { window: 99, container: 42 });
    let phase = step(phase, Event::ExStyleRead { value: 0x0000_0001 });
    assert_eq!(
        phase,
        AttachPhase::WritingExStyle { window: 99, container: 42, value: 0x0800_0081 }
    );
    let phase = step(phase, Event::StepDone { succeeded: true });
    assert_eq!(phase, AttachPhase::Reparenting { window: 99, container: 42 });
    let phase = step(phase, Event::StepDone { succeeded: true });
    assert_eq!(phase, AttachPhase::ReadingRect { window: 99, container: 42 });
    let phase = step(
        phase,
        Event::RectRead { rect: Rect { left: 0, top: 0, right: 1920, bottom: 1080 } },
    );
    assert_eq!(
        phase,
        AttachPhase::Positioning {
            window: 99,
            container: 42,
            placement: Placement {
                x: 0,
                y: 0,
                width: 1920,
                height: 1080,
                insert_after: INSERT_AFTER_BOTTOM,
                flags: SWP_SHOWWINDOW | SWP_FRAMECHANGED,
            },
        }
    );
    let phase = step(phase, Event::StepDone { succeeded: true });
    assert_eq!(phase, AttachPhase::Done);
}

#[test]
fn machine_fails_when_no_container_is_found() {
    let phase = initial_phase();
    let phase = step(phase, Event::RootLocated { root: NULL_WINDOW });
    let phase = step(phase, Event::SpawnTriggered);
    let phase = step(phase, Event::ScanFinished { container: None });
    assert_eq!(phase, AttachPhase::Failed { error: AttachError::TargetNotFound });
    match phase {
        AttachPhase::Failed { error } => {
            assert_eq!(error.message(), "Could not find WorkerW");
        }
        _ => unreachable!(),
    }
}

#[test]
fn machine_fails_fast_on_unresolved_handle() {
    let phase = initial_phase();
    let phase = step(phase, Event::RootLocated { root: 11 });
    let phase = step(phase, Event::SpawnTriggered);
    let phase = step(phase, Event::ScanFinished { container: Some(42) });
    let phase = step(
        phase,
        Event::HandleResolved { outcome: Err("window handle not realized".to_string()) },
    );
    assert_eq!(
        phase,
        AttachPhase::Failed {
            error: AttachError::HandleUnresolved {
                detail: "window handle not realized".to_string(),
            },
        }
    );
    match phase {
        AttachPhase::Failed { error } => {
            assert_eq!(error.message(), "window handle not realized");
        }
        _ => unreachable!(),
    }
}
