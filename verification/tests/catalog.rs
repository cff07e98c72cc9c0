use anchoring::catalog::{
    CatalogError, CrawlingSettingsRepository, LanguageOptionRepository, TechnologyService,
    VersionService,
};
use anchoring::models::{CrawlingSettings, Technology, TechnologyVersion};

fn tech(id: u128, name: &str) -> Technology {
    Technology {
        id,
        name: name.to_string(),
        language: Some("rust".to_string()),
        related: None,
        created_at: 1,
        updated_at: 1,
    }
}

fn version(id: u128, technology_id: u128, name: &str) -> TechnologyVersion {
    TechnologyVersion { id, technology_id, version: name.to_string(), created_at: 1, updated_at: 1 }
}

#[test]
fn technology_names_are_unique() {
    let mut techs = TechnologyService::new();
    assert_eq!(techs.create_technology(tech(1, "tokio")), Ok(1));
    assert_eq!(techs.create_technology(tech(2, "tokio")), Err(CatalogError::TechnologyNameTaken));
    assert_eq!(techs.create_technology(tech(2, "serde")), Ok(2));
    assert_eq!(techs.get_technologies().len(), 2);
    assert_eq!(techs.find_technology_by_name("serde").unwrap().id, 2);
    assert!(techs.find_technology_by_name("Serde").is_none());
    assert_eq!(techs.get_technology(1).unwrap().name, "tokio");
    assert!(techs.get_technology(3).is_none());
}

#[test]
fn technology_update_keeps_the_id_and_guards_the_name() {
    let mut techs = TechnologyService::new();
    techs.create_technology(tech(1, "tokio")).unwrap();
    techs.create_technology(tech(2, "serde")).unwrap();
    assert_eq!(techs.update_technology(1, tech(9, "serde")), Err(CatalogError::TechnologyNameTaken));
    assert_eq!(techs.update_technology(3, tech(3, "x")), Err(CatalogError::TechnologyMissing(3)));
    assert_eq!(techs.update_technology(1, tech(9, "tokio")), Ok(()));
    assert_eq!(techs.update_technology(1, tech(9, "axum")), Ok(()));
    let updated = techs.get_technology(1).unwrap();
    assert_eq!(updated.name, "axum");
    assert!(techs.get_technology(9).is_none());
}

#[test]
fn technology_is_found_or_made() {
    let mut techs = TechnologyService::new();
    assert_eq!(techs.get_or_create_technology("tokio", Some("rust"), 5, 10), 5);
    assert_eq!(techs.get_or_create_technology("tokio", None, 6, 11), 5);
    let made = techs.get_technology(5).unwrap();
    assert_eq!(made.language.as_deref(), Some("rust"));
    assert_eq!(made.created_at, 10);
    assert!(made.related.is_none());
    assert!(techs.delete_technology(5));
    assert!(!techs.delete_technology(5));
    assert!(techs.get_technologies().is_empty());
}

#[test]
fn versions_belong_to_a_technology_and_have_unique_names_there() {
    let mut techs = TechnologyService::new();
    techs.create_technology(tech(1, "tokio")).unwrap();
    techs.create_technology(tech(2, "serde")).unwrap();
    let mut versions = VersionService::new();
    assert_eq!(
        versions.create_version(&techs, version(10, 3, "1.0")).err(),
        Some(CatalogError::TechnologyMissing(3))
    );
    assert_eq!(versions.create_version(&techs, version(10, 1, "1.0")).unwrap().id, 10);
    assert_eq!(
        versions.create_version(&techs, version(11, 1, "1.0")).err(),
        Some(CatalogError::VersionNameTaken)
    );
    assert_eq!(versions.create_version(&techs, version(11, 2, "1.0")).unwrap().id, 11);
    assert_eq!(versions.create_version(&techs, version(12, 1, "2.0")).unwrap().id, 12);
    let of_tokio = versions.get_versions_for_technology(&techs, 1).unwrap();
    assert_eq!(of_tokio.iter().map(|v| v.id).collect::<Vec<_>>(), vec![10, 12]);
    assert_eq!(
        versions.get_versions_for_technology(&techs, 3).err(),
        Some(CatalogError::TechnologyMissing(3))
    );
    assert_eq!(versions.find_by_version(1, "2.0").unwrap().id, 12);
    assert!(versions.find_by_version(2, "2.0").is_none());
    assert_eq!(versions.get_version(11).unwrap().technology_id, 2);
    assert_eq!(versions.get_versions().len(), 3);
}

#[test]
fn version_update_and_removal() {
    let mut techs = TechnologyService::new();
    techs.create_technology(tech(1, "tokio")).unwrap();
    let mut versions = VersionService::new();
    versions.create_version(&techs, version(10, 1, "1.0")).unwrap();
    versions.create_version(&techs, version(11, 1, "2.0")).unwrap();
    assert_eq!(
        versions.update_version(10, version(10, 1, "2.0")).err(),
        Some(CatalogError::VersionNameTaken)
    );
    assert_eq!(
        versions.update_version(12, version(12, 1, "3.0")).err(),
        Some(CatalogError::VersionMissing(12))
    );
    let updated = versions.update_version(10, version(99, 1, "1.1")).unwrap();
    assert_eq!(updated.id, 10);
    assert_eq!(updated.version, "1.1");
    assert!(versions.delete_version(11));
    assert!(!versions.delete_version(11));
    assert_eq!(versions.get_versions().len(), 1);
}

#[test]
fn version_is_found_or_made() {
    let mut techs = TechnologyService::new();
    techs.create_technology(tech(1, "tokio")).unwrap();
    let mut versions = VersionService::new();
    let made = versions.get_or_create_version(&techs, 1, "1.0", 10, 7).unwrap();
    assert_eq!((made.id, made.created_at), (10, 7));
    let found = versions.get_or_create_version(&techs, 1, "1.0", 11, 8).unwrap();
    assert_eq!((found.id, found.created_at), (10, 7));
    assert_eq!(
        versions.get_or_create_version(&techs, 2, "1.0", 12, 9).err(),
        Some(CatalogError::TechnologyMissing(2))
    );
}

#[test]
fn settings_are_kept_once_for_each_version() {
    let mut repo = CrawlingSettingsRepository::new();
    assert!(repo.get_for_version(1).is_none());
    let default = repo.get_or_create_default(1, 100, 5);
    assert_eq!(default.id, 100);
    assert_eq!(default.prefix_path, None);
    assert_eq!(default.created_at, 5);
    let again = repo.get_or_create_default(1, 101, 6);
    assert_eq!(again.id, 100);
    let saved = repo.save_for_version(
        CrawlingSettings {
            id: 999,
            version_id: 1,
            prefix_path: Some("/v1/".to_string()),
            anti_paths: None,
            anti_keywords: Some("blog".to_string()),
            created_at: 7,
            updated_at: 7,
        },
        102,
    );
    assert_eq!(saved.id, 100);
    assert_eq!(repo.get_for_version(1).unwrap().prefix_path.as_deref(), Some("/v1/"));
    let other = repo.save_for_version(
        CrawlingSettings {
            id: 999,
            version_id: 2,
            prefix_path: None,
            anti_paths: None,
            anti_keywords: None,
            created_at: 8,
            updated_at: 8,
        },
        103,
    );
    assert_eq!(other.id, 103);
    assert_eq!(repo.get_for_version(2).unwrap().id, 103);
}

#[test]
fn language_uses_are_counted() {
    let mut repo = LanguageOptionRepository::new();
    assert_eq!(repo.record_language_use("rust", 1, 10), 1);
    assert_eq!(repo.record_language_use("rust", 2, 11), 2);
    assert_eq!(repo.record_language_use("go", 3, 12), 1);
    let all = repo.get_all();
    assert_eq!(all.len(), 2);
    assert_eq!((all[0].id, all[0].use_count, all[0].last_used), (1, 2, 11));
    assert_eq!((all[1].id, all[1].language.as_str()), (3, "go"));
}

#[test]
fn default_technology_service_is_empty() {
    let techs = TechnologyService::default();
    assert!(techs.get_technologies().is_empty());
}
