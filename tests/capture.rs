use boom::capture::{display_at, CaptureError, DisplayBounds, ScreenshotManager, ScreenshotState};
use boom::rect::Point;

fn displays() -> Vec<DisplayBounds> {
    vec![
        DisplayBounds { x: 0, y: 0, width: 1920, height: 1080 },
        DisplayBounds { x: 1920, y: 0, width: 1280, height: 1024 },
    ]
}

#[test]
fn start_begin_cancel_then_start_again() {
    let mut m = ScreenshotManager::new();
    let surface = m.start().unwrap();
    m.begin(surface, Point { x: 10, y: 20 }, &displays()).unwrap();
    assert!(matches!(m.current(), ScreenshotState::InProgress { .. }));
    // Cancelling only closes the surface: there is no capture job.
    assert_eq!(m.cancel(), Some(surface));
    assert_eq!(m.current(), ScreenshotState::Idle);
    let second = m.start().unwrap();
    assert_eq!(second, surface + 1);
    assert_eq!(m.current(), ScreenshotState::Started { surface: second });
}

#[test]
fn finish_hands_back_the_normalized_rectangle() {
    let mut m = ScreenshotManager::new();
    let s = m.start().unwrap();
    m.begin(s, Point { x: 2000, y: 500 }, &displays()).unwrap();
    let job = m.finish(s, Point { x: 1950, y: 100 }).unwrap();
    assert_eq!(job.surface, s);
    assert_eq!(job.display, 1);
    assert_eq!(*job.rect.origin(), Point { x: 1950, y: 100 });
    assert_eq!(job.rect.width(), 50);
    assert_eq!(job.rect.height(), 400);
    assert_eq!(m.current(), ScreenshotState::Idle);
    // A new capture may begin at once.
    assert!(m.start().is_ok());
}

#[test]
fn events_out_of_order_are_refused() {
    let mut m = ScreenshotManager::new();
    assert_eq!(m.begin(0, Point { x: 1, y: 1 }, &displays()), Err(CaptureError::NotStarted));
    assert_eq!(m.finish(0, Point { x: 1, y: 1 }).unwrap_err(), CaptureError::NotInProgress);
    assert_eq!(m.cancel(), None);
    let s = m.start().unwrap();
    assert_eq!(m.start(), Err(CaptureError::NotIdle));
    assert_eq!(m.finish(s, Point { x: 1, y: 1 }).unwrap_err(), CaptureError::NotInProgress);
    assert_eq!(m.begin(s + 1, Point { x: 1, y: 1 }, &displays()), Err(CaptureError::WrongSurface));
    assert_eq!(m.begin(s, Point { x: -5, y: 1 }, &displays()), Err(CaptureError::NoDisplay));
    assert_eq!(m.current(), ScreenshotState::Started { surface: s });
    m.begin(s, Point { x: 5, y: 5 }, &displays()).unwrap();
    assert_eq!(m.start(), Err(CaptureError::NotIdle));
    assert_eq!(m.finish(s + 1, Point { x: 9, y: 9 }).unwrap_err(), CaptureError::WrongSurface);
    assert!(m.finish(s, Point { x: 9, y: 9 }).is_ok());
}

#[test]
fn display_containment() {
    let d = displays();
    assert_eq!(display_at(&d, Point { x: 0, y: 0 }), Some(0));
    assert_eq!(display_at(&d, Point { x: 1919, y: 1079 }), Some(0));
    assert_eq!(display_at(&d, Point { x: 1920, y: 0 }), Some(1));
    assert_eq!(display_at(&d, Point { x: 1920, y: 1024 }), None);
    assert_eq!(display_at(&[].to_vec(), Point { x: 0, y: 0 }), None);
    assert!(d[0].contains(Point { x: 100, y: 100 }));
    assert!(!d[1].contains(Point { x: 100, y: 100 }));
}

#[test]
fn capture_job_encodes_png() {
    let mut m = ScreenshotManager::new();
    let s = m.start().unwrap();
    m.begin(s, Point { x: 10, y: 10 }, &displays()).unwrap();
    let job = m.finish(s, Point { x: 13, y: 12 }).unwrap();
    assert_eq!(job.encode(vec![0u8; 5]).unwrap_err(), CaptureError::RasterSize);
    let png = job.encode(vec![200u8; 3 * 2 * 4]).unwrap();
    assert_eq!(&png[..8], &[0x89, b'P', b'N', b'G', 0x0d, 0x0a, 0x1a, 0x0a]);
}
