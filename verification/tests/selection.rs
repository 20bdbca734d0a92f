use luminance_glutin::config::{
    choose_candidate, enumerate, select, select_first, ApiKind, ConfigDescriptor, ConfigTemplate, PlatformConfig,
    SelectedConfig,
};
use luminance_glutin::error::GlutinError;

fn candidate(id: u32, opengl: bool, gles2: bool, samples: u8) -> PlatformConfig {
    PlatformConfig { id, opengl, gles1: false, gles2, gles3: false, samples }
}

fn descriptor(api: ApiKind, samples: u8, double_buffer: bool) -> ConfigDescriptor {
    ConfigDescriptor { api, samples, double_buffer }
}

#[test]
fn template_never_asks_for_single_buffering() {
    let asked = descriptor(ApiKind::OpenGl, 4, false).template();
    assert_eq!(asked, ConfigTemplate { api: ApiKind::OpenGl, samples: 4, single_buffering: false });
    let asked = descriptor(ApiKind::Gles2, 0, true).template();
    assert_eq!(asked, ConfigTemplate { api: ApiKind::Gles2, samples: 0, single_buffering: false });
}

#[test]
fn supports_api_reads_the_matching_flag() {
    let c = PlatformConfig { id: 1, opengl: true, gles1: false, gles2: true, gles3: false, samples: 0 };
    assert!(c.supports_api(ApiKind::OpenGl));
    assert!(!c.supports_api(ApiKind::Gles1));
    assert!(c.supports_api(ApiKind::Gles2));
    assert!(!c.supports_api(ApiKind::Gles3));
}

#[test]
fn enumerate_keeps_supporting_candidates_in_order() {
    let all = vec![
        candidate(0, false, true, 0),
        candidate(1, true, false, 4),
        candidate(2, false, false, 0),
        candidate(3, true, true, 0),
    ];
    assert_eq!(enumerate(&all, ApiKind::OpenGl), vec![all[1], all[3]]);
    assert_eq!(enumerate(&all, ApiKind::Gles2), vec![all[0], all[3]]);
    assert_eq!(enumerate(&all, ApiKind::Gles3), vec![]);
    assert_eq!(enumerate(&vec![], ApiKind::OpenGl), vec![]);
}

#[test]
fn choose_candidate_forces_double_buffering() {
    let usable = vec![candidate(7, true, false, 2), candidate(8, true, false, 4)];
    let chosen = choose_candidate(descriptor(ApiKind::OpenGl, 4, false), &usable, 1);
    assert_eq!(chosen, SelectedConfig { config: usable[1], api: ApiKind::OpenGl, double_buffered: true });
}

#[test]
fn select_matches_request_and_is_double_buffered() {
    let all = vec![candidate(0, true, false, 0), candidate(1, true, true, 8)];
    for double_buffer in [false, true] {
        for api in [ApiKind::OpenGl, ApiKind::Gles2] {
            let chosen = select_first(descriptor(api, 0, double_buffer), &all).unwrap();
            assert_eq!(chosen.api, api);
            assert!(chosen.double_buffered);
            assert!(chosen.config.supports_api(api));
            assert!(all.contains(&chosen.config));
        }
    }
}

#[test]
fn select_on_no_candidate_fails() {
    let none: Vec<PlatformConfig> = vec![];
    assert_eq!(select_first(descriptor(ApiKind::OpenGl, 0, true), &none), Err(GlutinError::NoCompatibleConfig));
    let mut asked = false;
    let res = select(descriptor(ApiKind::OpenGl, 0, true), &none, |_: &Vec<PlatformConfig>| {
        asked = true;
        0
    });
    assert_eq!(res, Err(GlutinError::NoCompatibleConfig));
    assert!(!asked);
}

#[test]
fn select_four_samples_picks_first_supporting_candidate() {
    let request = descriptor(ApiKind::OpenGl, 4, false);
    let all = vec![candidate(10, true, false, 4), candidate(11, true, false, 0)];
    assert_eq!(
        select_first(request, &all),
        Ok(SelectedConfig { config: all[0], api: ApiKind::OpenGl, double_buffered: true })
    );
    let swapped = vec![candidate(11, true, false, 0), candidate(10, true, false, 4)];
    assert_eq!(
        select_first(request, &swapped),
        Ok(SelectedConfig { config: swapped[0], api: ApiKind::OpenGl, double_buffered: true })
    );
}

#[test]
fn select_skips_candidates_of_another_api() {
    let request = descriptor(ApiKind::OpenGl, 4, false);
    let all = vec![candidate(20, false, true, 4), candidate(21, true, false, 0)];
    assert_eq!(
        select_first(request, &all),
        Ok(SelectedConfig { config: all[1], api: ApiKind::OpenGl, double_buffered: true })
    );
}

#[test]
fn select_fails_when_no_candidate_supports_the_api() {
    let request = descriptor(ApiKind::OpenGl, 4, false);
    let all = vec![candidate(30, false, true, 4), candidate(31, false, true, 0)];
    assert_eq!(select_first(request, &all), Err(GlutinError::NoCompatibleConfig));
    assert_eq!(select(request, &all, |_: &Vec<PlatformConfig>| 0), Err(GlutinError::NoCompatibleConfig));
}

#[test]
fn select_asks_the_policy_on_supporting_candidates_only() {
    let request = descriptor(ApiKind::OpenGl, 0, true);
    let all = vec![
        candidate(40, true, false, 0),
        candidate(41, false, true, 16),
        candidate(42, true, false, 8),
        candidate(43, true, false, 2),
    ];
    let most_samples = |usable: &Vec<PlatformConfig>| {
        let mut best = 0;
        for (i, c) in usable.iter().enumerate() {
            if c.samples > usable[best].samples {
                best = i;
            }
        }
        best
    };
    let chosen = select(request, &all, most_samples).unwrap();
    assert_eq!(chosen.config, all[2]);
    let last = select(request, &all, |usable: &Vec<PlatformConfig>| usable.len() - 1).unwrap();
    assert_eq!(last.config, all[3]);
    let first = select(request, &all, |_: &Vec<PlatformConfig>| 0).unwrap();
    assert_eq!(Ok(first), select_first(request, &all));
}
