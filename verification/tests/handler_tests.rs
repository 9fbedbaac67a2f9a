use chickadee::{EngineHandler, HandlerAction, WindowEvent, WindowSignal};

#[test]
fn signals_for_the_own_window_are_acted_on() {
    let handler = EngineHandler::new();
    assert_eq!(
        handler.window_event(true, WindowSignal::CloseRequested),
        HandlerAction::Exit
    );
    assert_eq!(
        handler.window_event(true, WindowSignal::Resized { width: 800, height: 600 }),
        HandlerAction::Resize { width: 800, height: 600 }
    );
    assert_eq!(
        handler.window_event(true, WindowSignal::RedrawRequested),
        HandlerAction::RenderAndUpdate
    );
    assert_eq!(
        handler.window_event(true, WindowSignal::Input { event: WindowEvent::Other }),
        HandlerAction::Forward { event: WindowEvent::Other }
    );
}

#[test]
fn signals_for_another_window_are_ignored() {
    let handler = EngineHandler::new();
    assert_eq!(
        handler.window_event(false, WindowSignal::CloseRequested),
        HandlerAction::Ignore
    );
    assert_eq!(
        handler.window_event(false, WindowSignal::RedrawRequested),
        HandlerAction::Ignore
    );
}
