use monster_player::about::AboutInfo;
use monster_player::modes::{pause_other, PausePlan, SourceMode};

#[test]
fn pausing_the_other_sources() {
    assert_eq!(pause_other(SourceMode::LocalPlayback), PausePlan { local: false, mpris: true, streaming: true });
    assert_eq!(pause_other(SourceMode::SystemMonitor), PausePlan { local: true, mpris: false, streaming: true });
    assert_eq!(pause_other(SourceMode::Streaming), PausePlan { local: true, mpris: true, streaming: false });
    assert_eq!(pause_other(SourceMode::Idle), PausePlan { local: true, mpris: false, streaming: true });
}

#[test]
fn empty_about_page() {
    let a = AboutInfo::empty();
    assert!(a.description.is_empty() && a.version.is_empty());
    assert!(a.links.is_empty() && a.braille_images.is_empty());
}
