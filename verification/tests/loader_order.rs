use vulkan_rust::bootstrap::BootstrapLoaderKind;
use vulkan_rust::builder::{AppBuilder, IndirectDependency, WindowSize};
use vulkan_rust::dependency::{resolve_loader_order, LoaderDependencies, LoaderOrderError};

fn loader(name: &str, deps: &[&str]) -> LoaderDependencies {
    LoaderDependencies {
        name: name.to_string(),
        depends_on: deps.iter().map(|d| d.to_string()).collect(),
    }
}

#[test]
fn independent_loaders_keep_registration_order() {
    let loaders = vec![loader("A", &[]), loader("B", &[]), loader("C", &[])];
    assert_eq!(resolve_loader_order(&loaders).unwrap(), vec![0, 1, 2]);
}

#[test]
fn dependencies_come_first() {
    let loaders = vec![loader("A", &["B"]), loader("B", &["C"]), loader("C", &[])];
    assert_eq!(resolve_loader_order(&loaders).unwrap(), vec![2, 1, 0]);
}

#[test]
fn greedy_scan_restarts_from_the_first_remaining_loader() {
    // After C is placed, A (needs C) comes before D even though D was ready earlier.
    let loaders = vec![loader("A", &["C"]), loader("B", &["A"]), loader("C", &[]), loader("D", &[])];
    assert_eq!(resolve_loader_order(&loaders).unwrap(), vec![2, 0, 1, 3]);
}

#[test]
fn duplicate_name_is_refused() {
    let loaders = vec![loader("A", &[]), loader("A", &[])];
    match resolve_loader_order(&loaders) {
        Err(LoaderOrderError::DuplicateLoader(name)) => assert_eq!(name, "A"),
        other => panic!("unexpected {:?}", other),
    }
}

#[test]
fn missing_dependency_lists_the_remaining_loaders() {
    let loaders = vec![loader("A", &[]), loader("B", &["X"]), loader("C", &["B"])];
    match resolve_loader_order(&loaders) {
        Err(LoaderOrderError::UnresolvedDependencies(rem)) => assert_eq!(rem, vec![1, 2]),
        other => panic!("unexpected {:?}", other),
    }
}

#[test]
fn dependency_cycle_is_unresolved() {
    let loaders = vec![loader("A", &["B"]), loader("B", &["A"])];
    match resolve_loader_order(&loaders) {
        Err(LoaderOrderError::UnresolvedDependencies(rem)) => assert_eq!(rem, vec![0, 1]),
        other => panic!("unexpected {:?}", other),
    }
}

#[test]
fn empty_loader_list_orders_to_nothing() {
    let loaders: Vec<LoaderDependencies> = vec![];
    assert_eq!(resolve_loader_order(&loaders).unwrap(), Vec::<usize>::new());
}

#[test]
fn loader_kinds_report_their_dependencies() {
    assert_eq!(BootstrapLoaderKind::Swapchain.dependency_name(), "BootstrapSwapchainLoader");
    assert_eq!(BootstrapLoaderKind::Swapchain.depends_on(), Vec::<String>::new());
    assert_eq!(
        BootstrapLoaderKind::Pipeline.depends_on(),
        vec![
            "BootstrapSwapchainLoader".to_string(),
            "BootstrapRenderImagesLoader".to_string(),
            "BootstrapUniformLoader".to_string()
        ]
    );
    assert_eq!(
        BootstrapLoaderKind::DescriptorSet.dependencies(),
        vec![BootstrapLoaderKind::Uniform, BootstrapLoaderKind::CommandBuffer]
    );
}

#[test]
fn builder_defaults() {
    let builder: AppBuilder<BootstrapLoaderKind> = AppBuilder::default();
    let config = builder.build().unwrap();
    assert_eq!(config.initial_title, "");
    assert_eq!(config.default_size, WindowSize { width: 300, height: 300 });
    assert!(config.bootstrap_loaders.is_empty());
}

#[test]
fn default_loaders_are_ordered_by_dependencies() {
    let config = AppBuilder::default()
        .initial_title("Test".to_string())
        .default_size(WindowSize { width: 800, height: 600 })
        .add_default_bootstrap_loaders()
        .build()
        .unwrap();
    assert_eq!(config.initial_title, "Test");
    assert_eq!(config.default_size, WindowSize { width: 800, height: 600 });
    assert_eq!(
        config.bootstrap_loaders,
        vec![
            BootstrapLoaderKind::TextureSampling,
            BootstrapLoaderKind::Swapchain,
            BootstrapLoaderKind::CommandBuffer,
            BootstrapLoaderKind::Uniform,
            BootstrapLoaderKind::RenderImages,
            BootstrapLoaderKind::Pipeline,
            BootstrapLoaderKind::Framebuffer,
            BootstrapLoaderKind::SyncObjects,
            BootstrapLoaderKind::DescriptorSet,
        ]
    );
}

#[test]
fn dependent_loader_registered_first_is_moved_after_its_dependencies() {
    let config = AppBuilder::default()
        .add_bootstrap_loader(BootstrapLoaderKind::CommandBuffer)
        .add_bootstrap_loader(BootstrapLoaderKind::Swapchain)
        .add_validation()
        .build()
        .unwrap();
    assert_eq!(
        config.bootstrap_loaders,
        vec![
            BootstrapLoaderKind::Swapchain,
            BootstrapLoaderKind::CommandBuffer,
            BootstrapLoaderKind::Validation,
        ]
    );
}

#[test]
fn registering_a_loader_twice_fails_to_build() {
    let result = AppBuilder::default()
        .add_bootstrap_loader(BootstrapLoaderKind::Swapchain)
        .add_bootstrap_loader(BootstrapLoaderKind::Swapchain)
        .build();
    match result {
        Err(LoaderOrderError::DuplicateLoader(name)) => assert_eq!(name, "BootstrapSwapchainLoader"),
        other => panic!("unexpected {:?}", other.map(|c| c.bootstrap_loaders)),
    }
}

#[test]
fn missing_loader_dependency_fails_to_build() {
    let result = AppBuilder::default()
        .add_bootstrap_loader(BootstrapLoaderKind::CommandBuffer)
        .build();
    match result {
        Err(LoaderOrderError::UnresolvedDependencies(rem)) => assert_eq!(rem, vec![0]),
        other => panic!("unexpected {:?}", other.map(|c| c.bootstrap_loaders)),
    }
}
