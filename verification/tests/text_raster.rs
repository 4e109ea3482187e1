use typio_host::text_raster::{
    face_runs, face_score, family_contains, family_is_primary, family_rank, is_cjk_candidate_char, pick_face,
    FaceTraits, FamilyList,
};

fn face(families: &[&str], monospaced: bool, upright: bool, weight: u16) -> FaceTraits {
    FaceTraits {
        families: families.iter().map(|f| f.to_string()).collect(),
        monospaced,
        upright,
        weight,
    }
}

#[test]
fn cjk_candidate_char_detection_covers_common_scripts() {
    assert!(is_cjk_candidate_char('啊'));
    assert!(is_cjk_candidate_char('罐'));
    assert!(is_cjk_candidate_char('あ'));
    assert!(is_cjk_candidate_char('가'));
    assert!(!is_cjk_candidate_char('A'));
}

#[test]
fn primary_family_scores_below_fallback() {
    let a = face(&["DejaVu Sans"], false, true, 400);
    let score_primary = face_score(&a, 'A', Some("DejaVu Sans")).0;
    let score_other = face_score(&a, 'A', Some("This Family Does Not Exist")).0;
    assert_eq!(score_primary, 0, "primary family must be tier 0");
    assert!(score_other > 0, "non-primary must fall through to the lists");
}

#[test]
fn family_rank_is_case_insensitive_and_takes_the_first_listed_family() {
    let families = vec!["Unknown".to_string(), "noto sans cjk jp".to_string(), "Noto Sans SC".to_string()];
    assert_eq!(family_rank(&families, FamilyList::CjkSans), Some(11));
    assert_eq!(family_rank(&families, FamilyList::UiSans), None);
}

#[test]
fn family_contains_matches_lowercased_names() {
    let families = vec!["Noto Serif CJK SC".to_string()];
    assert!(family_contains(&families, "serif"));
    assert!(!family_contains(&families, "emoji"));
    assert!(family_contains(&families, "cjk sc"));
}

#[test]
fn empty_primary_family_counts_as_none() {
    let families = vec!["".to_string()];
    assert!(!family_is_primary(&families, Some("")));
    assert!(family_is_primary(&vec!["Inter".to_string()], Some("INTER")));
}

#[test]
fn cjk_text_prefers_cjk_sans_over_serif_and_medium_weight() {
    let serif = face(&["Noto Serif CJK SC"], false, true, 500);
    let sans = face(&["Noto Sans SC"], false, true, 400);
    assert_eq!(face_score(&serif, '中', None), (900, 0, 0));
    assert_eq!(face_score(&sans, '中', None), (1, 0, 100));
    assert_eq!(pick_face(&[serif.clone(), sans.clone()], '中', None), Some(1));
}

#[test]
fn latin_text_prefers_ui_sans_and_upright_faces() {
    let italic = face(&["Inter"], false, false, 400);
    let upright = face(&["Inter"], false, true, 400);
    let mono = face(&["Some Mono"], true, true, 400);
    assert_eq!(face_score(&italic, 'A', None), (2, 1, 0));
    assert_eq!(face_score(&mono, 'A', None), (700, 0, 0));
    assert_eq!(pick_face(&[italic, upright, mono], 'A', None), Some(1));
}

#[test]
fn cjk_only_face_is_a_middling_choice_for_latin() {
    let cjk = face(&["Noto Sans SC"], false, true, 400);
    assert_eq!(face_score(&cjk, 'x', None).0, 250);
}

#[test]
fn primary_family_outranks_the_head_of_the_preference_list() {
    let noto = face(&["Noto Sans"], false, true, 400);
    let primary = face(&["Other Family"], false, false, 700);
    assert_eq!(face_score(&noto, 'A', Some("Other Family")).0, 1);
    assert_eq!(face_score(&primary, 'A', Some("Other Family")).0, 0);
    assert_eq!(pick_face(&[noto, primary], 'A', Some("Other Family")), Some(1));
}

#[test]
fn ties_keep_the_first_face() {
    let a = face(&["Plain"], false, true, 400);
    let b = face(&["Other Plain"], false, true, 400);
    assert_eq!(pick_face(&[a, b], 'A', None), Some(0));
    assert_eq!(pick_face(&[], 'A', None), None);
}

#[test]
fn runs_group_neighbours_sharing_a_face_and_skip_uncovered() {
    let text = vec![
        ('a', Some(0)),
        ('b', Some(0)),
        ('\u{4e2d}', Some(2)),
        ('?', None),
        ('\u{6587}', Some(2)),
        ('c', Some(0)),
    ];
    let runs = face_runs(&text);
    assert_eq!(
        runs,
        vec![(0, vec!['a', 'b']), (2, vec!['\u{4e2d}', '\u{6587}']), (0, vec!['c'])]
    );
    assert!(face_runs(&[('x', None)]).is_empty());
}
