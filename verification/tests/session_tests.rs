use klog::Directive;
use klog::Key;
use klog::Mode;
use klog::PodIdentifier;
use klog::ProviderError;
use klog::ResolutionError;
use klog::ScrollReset;
use klog::SessionError;
use klog::SessionState;

fn chars(s: &str) -> Vec<char> {
    s.chars().collect()
}

fn pod(namespace: &str, name: &str) -> PodIdentifier {
    PodIdentifier { name: chars(name), namespace: chars(namespace) }
}

fn session() -> SessionState {
    SessionState::new(pod("default", "web-aaa11-bbb22"))
}

#[test]
fn fresh_session_requests_initial_logs() {
    let mut s = session();
    assert_eq!(s.mode, Mode::Normal);
    let acts = s.take_pending();
    assert!(acts.refetch_logs);
    assert!(!acts.refetch_previous_container_logs);
    assert!(!acts.delete_pod);
    let drained = s.take_pending();
    assert!(!drained.refetch_logs);
}

#[test]
fn quit_key_terminates_without_state_change() {
    let mut s = session();
    let d = s.handle_key(Key::Char('q'));
    assert_eq!(d, Directive::Quit);
    assert_eq!(s.mode, Mode::Normal);
}

#[test]
fn search_key_opens_overlay_with_clear_input() {
    let mut s = session();
    s.handle_key(Key::Char('s'));
    assert_eq!(s.mode, Mode::PodSearch);
    assert!(s.input.is_empty());
}

#[test]
fn fetch_keys_raise_pending_flags() {
    let mut s = session();
    s.take_pending();
    assert_eq!(s.handle_key(Key::Char('f')), Directive::Idle);
    assert_eq!(s.handle_key(Key::Char('l')), Directive::Idle);
    let acts = s.take_pending();
    assert!(acts.refetch_logs);
    assert!(acts.refetch_previous_container_logs);
    assert!(!acts.delete_pod);
}

#[test]
fn synchronous_keys_return_their_directives() {
    let mut s = session();
    assert_eq!(s.handle_key(Key::Char('d')), Directive::FetchDescription);
    assert_eq!(s.handle_key(Key::Char('w')), Directive::FetchListing);
    assert_eq!(s.handle_key(Key::Char('e')), Directive::ExecInteractive);
    assert_eq!(s.handle_key(Key::Char('v')), Directive::OpenInEditor);
    assert_eq!(s.mode, Mode::Normal);
}

#[test]
fn unlisted_keys_in_normal_mode_are_noops() {
    let mut s = session();
    s.take_pending();
    let before_mode = s.mode;
    let before_offset = s.viewport.vertical_offset;
    for k in [Key::Char('z'), Key::Char('Q'), Key::Enter, Key::Esc, Key::Backspace, Key::Other] {
        assert_eq!(s.handle_key(k), Directive::Idle);
        assert_eq!(s.mode, before_mode);
        assert_eq!(s.viewport.vertical_offset, before_offset);
        assert!(s.input.is_empty());
    }
    let acts = s.take_pending();
    assert!(!acts.refetch_logs && !acts.refetch_previous_container_logs && !acts.delete_pod);
}

#[test]
fn raising_delete_twice_equals_raising_it_once() {
    let mut s1 = session();
    s1.take_pending();
    s1.handle_key(Key::Char('p'));
    let mut s2 = session();
    s2.take_pending();
    s2.handle_key(Key::Char('p'));
    s2.handle_key(Key::Char('p'));
    assert_eq!(s1.pending, s2.pending);
    let a1 = s1.take_pending();
    let a2 = s2.take_pending();
    assert_eq!(a1, a2);
    assert!(a1.delete_pod);
}

#[test]
fn scroll_keys_move_the_viewport() {
    let mut s = session();
    let text = chars(&"line\n".repeat(30));
    s.apply_fetch_result(Ok(text), ScrollReset::End);
    assert_eq!(s.viewport.content_length, 30);
    assert_eq!(s.viewport.vertical_offset, 29);
    s.handle_key(Key::Char('j'));
    assert_eq!(s.viewport.vertical_offset, 29);
    s.handle_key(Key::Char('k'));
    assert_eq!(s.viewport.vertical_offset, 28);
    s.handle_key(Key::PageUp);
    assert_eq!(s.viewport.vertical_offset, 8);
    s.handle_key(Key::Up);
    assert_eq!(s.viewport.vertical_offset, 7);
    s.handle_key(Key::Down);
    assert_eq!(s.viewport.vertical_offset, 8);
    s.handle_key(Key::PageDown);
    assert_eq!(s.viewport.vertical_offset, 28);
    s.handle_key(Key::PageDown);
    assert_eq!(s.viewport.vertical_offset, 28);
}

#[test]
fn description_fetch_resets_viewport_to_start() {
    let mut s = session();
    s.apply_fetch_result(Ok(chars(&"x\n".repeat(40))), ScrollReset::End);
    assert_eq!(s.viewport.vertical_offset, 39);
    s.apply_fetch_result(Ok(chars(&"d\n".repeat(10))), ScrollReset::Start);
    assert_eq!(s.viewport.vertical_offset, 0);
    assert_eq!(s.viewport.content_length, 10);
}

#[test]
fn provider_failure_keeps_prior_buffer_and_session_alive() {
    let mut s = session();
    let text = chars("old content\nstill here");
    s.apply_fetch_result(Ok(text.clone()), ScrollReset::End);
    s.handle_key(Key::Char('f'));
    let acts = s.take_pending();
    assert!(acts.refetch_logs);
    s.apply_fetch_result(Err(ProviderError::CommandFailed), ScrollReset::End);
    assert_eq!(s.buffer.content, text);
    assert_eq!(s.last_error, Some(SessionError::Provider(ProviderError::CommandFailed)));
    assert_eq!(s.mode, Mode::Normal);
    assert_eq!(s.handle_key(Key::Char('q')), Directive::Quit);
}

#[test]
fn successful_fetch_clears_error_indicator() {
    let mut s = session();
    s.apply_fetch_result(Err(ProviderError::IOFailure), ScrollReset::End);
    assert!(s.last_error.is_some());
    s.apply_fetch_result(Ok(chars("fresh")), ScrollReset::End);
    assert_eq!(s.last_error, None);
}

#[test]
fn search_overlay_edits_its_input() {
    let mut s = session();
    s.handle_key(Key::Char('s'));
    s.handle_key(Key::Char('n'));
    s.handle_key(Key::Char('g'));
    s.handle_key(Key::Char('x'));
    assert_eq!(s.input, chars("ngx"));
    s.handle_key(Key::Backspace);
    assert_eq!(s.input, chars("ng"));
    s.handle_key(Key::Backspace);
    s.handle_key(Key::Backspace);
    assert!(s.input.is_empty());
    s.handle_key(Key::Backspace);
    assert!(s.input.is_empty());
    assert_eq!(s.mode, Mode::PodSearch);
}

#[test]
fn escape_discards_input_and_closes_overlay() {
    let mut s = session();
    s.handle_key(Key::Char('s'));
    s.handle_key(Key::Char('a'));
    s.handle_key(Key::Esc);
    assert_eq!(s.mode, Mode::Normal);
    assert!(s.input.is_empty());
}

#[test]
fn enter_in_overlay_requests_resolution() {
    let mut s = session();
    s.handle_key(Key::Char('s'));
    s.handle_key(Key::Char('n'));
    assert_eq!(s.handle_key(Key::Enter), Directive::ResolveTarget);
    assert_eq!(s.mode, Mode::PodSearch);
}

#[test]
fn successful_resolution_switches_target_and_refetches() {
    let mut s = session();
    s.take_pending();
    s.handle_key(Key::Char('s'));
    for c in "nginx".chars() {
        s.handle_key(Key::Char(c));
    }
    assert_eq!(s.handle_key(Key::Enter), Directive::ResolveTarget);
    let listing = chars("kube-system   nginx-controller-abc12-xde98   Running");
    s.apply_resolution(Ok(listing));
    assert_eq!(s.mode, Mode::Normal);
    assert!(s.input.is_empty());
    assert_eq!(s.target, pod("kube-system", "nginx-controller-abc12-xde98"));
    assert_eq!(s.viewport.vertical_offset, 0);
    assert_eq!(s.last_error, None);
    let acts = s.take_pending();
    assert!(acts.refetch_logs);
}

#[test]
fn failed_resolution_keeps_overlay_open() {
    let mut s = session();
    let original = s.target.clone();
    s.handle_key(Key::Char('s'));
    for c in "nope".chars() {
        s.handle_key(Key::Char(c));
    }
    s.handle_key(Key::Enter);
    let listing = chars("kube-system   coredns-aaa11-bbb22   Running");
    s.apply_resolution(Ok(listing));
    assert_eq!(s.mode, Mode::PodSearch);
    assert_eq!(s.input, chars("nope"));
    assert_eq!(s.target, original);
    assert_eq!(s.last_error, Some(SessionError::Resolution(ResolutionError::NotFound)));
}

#[test]
fn enter_on_empty_input_behaves_as_resolution_failure() {
    let mut s = session();
    s.handle_key(Key::Char('s'));
    assert_eq!(s.handle_key(Key::Enter), Directive::ResolveTarget);
    let listing = chars("kube-system   nginx-controller-abc12-xde98   Running");
    s.apply_resolution(Ok(listing));
    assert_eq!(s.mode, Mode::PodSearch);
    assert_eq!(s.last_error, Some(SessionError::Resolution(ResolutionError::NotFound)));
}

#[test]
fn listing_fetch_failure_during_resolution_is_recoverable() {
    let mut s = session();
    s.handle_key(Key::Char('s'));
    s.handle_key(Key::Char('n'));
    s.handle_key(Key::Enter);
    s.apply_resolution(Err(ProviderError::CommandFailed));
    assert_eq!(s.mode, Mode::PodSearch);
    assert_eq!(s.last_error, Some(SessionError::Provider(ProviderError::CommandFailed)));
}

#[test]
fn delete_success_opens_confirm_overlay() {
    let mut s = session();
    s.take_pending();
    s.handle_key(Key::Char('p'));
    let acts = s.take_pending();
    assert!(acts.delete_pod);
    s.apply_delete_result(Ok(()));
    assert_eq!(s.mode, Mode::PodDeletedConfirm);
}

#[test]
fn delete_failure_keeps_session_in_normal_mode() {
    let mut s = session();
    s.take_pending();
    s.handle_key(Key::Char('p'));
    s.take_pending();
    s.apply_delete_result(Err(ProviderError::CommandFailed));
    assert_eq!(s.mode, Mode::Normal);
    assert_eq!(s.last_error, Some(SessionError::Provider(ProviderError::CommandFailed)));
}

#[test]
fn confirm_overlay_ignores_all_keys_but_quit() {
    let mut s = session();
    s.take_pending();
    s.apply_delete_result(Ok(()));
    for k in [Key::Char('f'), Key::Char('p'), Key::Char('s'), Key::Enter, Key::Down] {
        assert_eq!(s.handle_key(k), Directive::Idle);
        assert_eq!(s.mode, Mode::PodDeletedConfirm);
    }
    let acts = s.take_pending();
    assert!(!acts.refetch_logs && !acts.delete_pod);
    assert_eq!(s.handle_key(Key::Char('q')), Directive::Quit);
}

#[test]
fn delete_raised_after_deletion_is_not_reissued() {
    let mut s = session();
    s.take_pending();
    s.handle_key(Key::Char('p'));
    s.take_pending();
    s.apply_delete_result(Ok(()));
    // Even if the flag were somehow pending again, draining in the
    // post-delete overlay must not re-issue the delete.
    s.pending.delete_pod = true;
    let acts = s.take_pending();
    assert!(!acts.delete_pod);
}

#[test]
fn exec_and_editor_failures_only_set_the_indicator() {
    let mut s = session();
    s.apply_fetch_result(Ok(chars("body")), ScrollReset::End);
    s.apply_action_result(Err(ProviderError::IOFailure));
    assert_eq!(s.last_error, Some(SessionError::Provider(ProviderError::IOFailure)));
    assert_eq!(s.buffer.content, chars("body"));
    s.apply_action_result(Ok(()));
    assert_eq!(s.last_error, None);
}
