use focus::software_list::{SoftwareList, SoftwareListError};

fn get_website_names() -> String {
    return "google.com\n youtube.com \n wikipedia.org\n osu.edu".to_string();
}

#[test]
fn test_website_import_from_txt_file() {
    // Arrange
    let sites = get_website_names();

    // Trim whitespace on each line of sites
    let trimmed_sites: Vec<String> = sites.lines().map(|line| line.trim().to_string()).collect();

    // Act
    let software_list = SoftwareList::from_text(&sites).unwrap();

    // Assert
    assert_eq!(software_list.website_list, Some(trimmed_sites));
    assert_eq!(software_list.application_list, None)
}

#[test]
fn empty_list_text_is_rejected() {
    assert_eq!(SoftwareList::from_text("").unwrap_err(), SoftwareListError::EmptyOrInvalid);
    assert_eq!(
        SoftwareList::from_text(" \n\t\n \r\n").unwrap_err(),
        SoftwareListError::EmptyOrInvalid
    );
}
