use biserialis::render::{InitializationError, NAME_SEPARATOR};

#[test]
fn library_load_error_reports_the_loaders_message() {
    let error = InitializationError::LibraryLoadError(String::from("libvulkan.so.1: not found"));
    assert_eq!(error.message(), "libvulkan.so.1: not found");
    assert_eq!(InitializationError::LibraryLoadError(String::new()).message(), "");
}

#[test]
fn load_error_joins_the_names() {
    assert_eq!(NAME_SEPARATOR, "; ");
    assert_eq!(InitializationError::LoadError(vec![]).message(), "");
    assert_eq!(
        InitializationError::LoadError(vec!["vkCreateInstance"]).message(),
        "vkCreateInstance"
    );
    assert_eq!(
        InitializationError::LoadError(vec!["vkCreateInstance", "vkDestroyInstance"]).message(),
        "vkCreateInstance; vkDestroyInstance"
    );
    assert_eq!(
        InitializationError::LoadError(vec!["a", "", "b"]).message(),
        "a; ; b"
    );
}

#[test]
fn vk_error_reports_what_ash_says_of_the_code() {
    assert_eq!(
        InitializationError::VkError(-1).message(),
        "A host memory allocation has failed"
    );
    assert_eq!(
        InitializationError::VkError(-9).message(),
        "Unable to find a Vulkan driver"
    );
    assert_eq!(
        InitializationError::VkError(0).message(),
        "Command completed successfully"
    );
    for code in [-1, -9, 0, 5, 12345, i32::MIN] {
        assert_eq!(
            InitializationError::VkError(code).message(),
            ash::vk::Result::from_raw(code).to_string()
        );
    }
}

#[test]
fn vk_error_reports_an_unknown_code_as_its_number() {
    assert_eq!(InitializationError::VkError(12345).message(), "12345");
    assert_eq!(InitializationError::VkError(-12345).message(), "-12345");
}
