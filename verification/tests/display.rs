use glctx::backend::Backend;
use glctx::context::BackendContext;
use glctx::context::BindingVerdict;
use glctx::context::ContextError;
use glctx::context::Surface;
use glctx::display::Display;
use glctx::display::DisplayCreationError;
use glctx::display::Facade;

fn current_context(width: u32, height: u32) -> BackendContext {
    let ctx = BackendContext::new();
    let (ctx, outcome) = ctx.make_current(
        Surface { width, height },
        BindingVerdict::Accepted,
        BindingVerdict::Accepted,
    );
    assert_eq!(outcome, Ok(()));
    ctx
}

#[test]
fn creation_fails_on_an_incompatible_implementation() {
    let ctx = BackendContext::new();
    let outcome = Display::new(ctx, false);
    assert!(matches!(
        outcome,
        Err(DisplayCreationError::IncompatibleImplementation)
    ));
}

#[test]
fn creation_succeeds_on_a_supported_implementation() {
    let ctx = current_context(800, 600);
    let display = Display::new(ctx, true).unwrap();
    assert!(display.get_context().is_current());
}

#[test]
fn unchecked_creation_always_succeeds() {
    let display = Display::unchecked(BackendContext::new());
    assert!(!display.get_context().is_current());
}

#[test]
fn draw_returns_the_current_dimensions() {
    let mut display = Display::new(current_context(1024, 768), true).unwrap();
    assert_eq!(display.draw(), Ok((1024, 768)));
}

#[test]
fn draw_while_not_current_is_an_invalid_state_access() {
    let mut display = Display::new(BackendContext::new(), true).unwrap();
    assert_eq!(display.draw(), Err(ContextError::InvalidStateAccess));
}

#[test]
fn draw_sees_dimension_updates() {
    let mut display = Display::new(current_context(800, 600), true).unwrap();
    assert_eq!(display.draw(), Ok((800, 600)));
    assert_eq!(display.set_framebuffer_dimensions((1024, 768)), Ok(()));
    assert_eq!(display.draw(), Ok((1024, 768)));
}

#[test]
fn extracted_context_can_be_transitioned_and_reinserted() {
    let mut display = Display::new(current_context(800, 600), true).unwrap();

    // Suspend: extract the currency token and release the binding.
    let ctx = display.take_context().unwrap();
    let (ctx, outcome) = ctx.make_not_current(BindingVerdict::Accepted);
    assert_eq!(outcome, Ok(()));

    // While the token is out, the display reports invalid-state accesses.
    assert_eq!(display.draw(), Err(ContextError::InvalidStateAccess));
    assert_eq!(
        display.set_framebuffer_dimensions((10, 10)),
        Err(ContextError::InvalidStateAccess)
    );
    assert_eq!(
        display.take_context().err(),
        Some(ContextError::InvalidStateAccess)
    );

    // Resume: reacquire on a new surface and reinsert the token.
    let (ctx, outcome) = ctx.make_current(
        Surface { width: 400, height: 300 },
        BindingVerdict::Accepted,
        BindingVerdict::Accepted,
    );
    assert_eq!(outcome, Ok(()));
    assert!(display.insert_context(ctx).is_none());
    assert_eq!(display.draw(), Ok((400, 300)));
}

#[test]
fn inserting_over_a_present_context_returns_the_displaced_one() {
    let mut display = Display::new(BackendContext::new(), true).unwrap();
    let displaced = display.insert_context(current_context(640, 480));
    assert!(displaced.is_some());
    assert!(!displaced.unwrap().is_current());
    assert_eq!(display.draw(), Ok((640, 480)));
}

#[test]
fn facade_hands_out_the_carried_context() {
    let display = Display::new(current_context(512, 256), true).unwrap();
    let ctx = display.get_context();
    assert!(ctx.is_current());
    assert_eq!(ctx.get_framebuffer_dimensions(), Ok((512, 256)));
}

#[test]
fn backend_capabilities_mirror_the_context() {
    let mut ctx = current_context(300, 200);
    assert!(Backend::is_current(&ctx));
    assert_eq!(Backend::get_framebuffer_dimensions(&ctx), Ok((300, 200)));
    Backend::set_framebuffer_dimensions(&mut ctx, (333, 222));
    assert_eq!(Backend::get_framebuffer_dimensions(&ctx), Ok((333, 222)));
}

#[test]
fn creation_error_wraps_backend_errors() {
    let e = DisplayCreationError::from(ContextError::PlatformBindingFailure);
    assert_eq!(
        e,
        DisplayCreationError::Backend(ContextError::PlatformBindingFailure)
    );
    assert_eq!(e.cause(), Some(ContextError::PlatformBindingFailure));
    assert_eq!(
        DisplayCreationError::IncompatibleImplementation.cause(),
        None
    );
}

#[test]
fn creation_error_messages_name_the_failure() {
    assert_eq!(
        DisplayCreationError::Backend(ContextError::InvalidStateAccess).message(),
        "backend error during display creation"
    );
    assert_eq!(
        DisplayCreationError::IncompatibleImplementation.message(),
        "the implementation's capabilities were rejected as incompatible"
    );
}
