use modelassetlib::document::ResourceKind;
use modelassetlib::loaded::LoadedGltf;
use modelassetlib::loaded::LoadedGltfBuffer;
use modelassetlib::loaded::LoadedGltfImage;

fn graph_with_images() -> LoadedGltf {
    let mut graph = LoadedGltf::new();
    graph
        .images
        .push(LoadedGltfImage::new_unresolved(0, String::from("tex.png")));
    graph
        .images
        .push(LoadedGltfImage::new(1, String::from("tex.png"), vec![1, 2]));
    graph
        .images
        .push(LoadedGltfImage::new(2, String::from("tex.png"), vec![3, 4]));
    graph
        .images
        .push(LoadedGltfImage::new(3, String::from("other.png"), vec![5]));
    graph
}

#[test]
fn image_lookup_returns_the_first_resolved_match() {
    let graph = graph_with_images();
    let bytes = graph.get_image_data_by_uri(&String::from("tex.png"));
    assert_eq!(bytes, Some(&vec![1, 2]));
}

#[test]
fn image_lookup_skips_unresolved_entries_and_misses_politely() {
    let graph = graph_with_images();
    assert_eq!(
        graph.get_image_data_by_uri(&String::from("other.png")),
        Some(&vec![5])
    );
    assert_eq!(graph.get_image_data_by_uri(&String::from("nope.png")), None);
}

#[test]
fn resource_lookup_distinguishes_kinds() {
    let mut graph = graph_with_images();
    graph
        .buffers
        .push(LoadedGltfBuffer::new(0, String::from("geo.bin"), vec![7]));
    assert_eq!(
        graph.get_resource_bytes_by_uri(ResourceKind::Buffer, &String::from("geo.bin")),
        Some(&vec![7])
    );
    assert_eq!(
        graph.get_resource_bytes_by_uri(ResourceKind::Buffer, &String::from("tex.png")),
        None
    );
    assert_eq!(
        graph.get_resource_bytes_by_uri(ResourceKind::Image, &String::from("tex.png")),
        Some(&vec![1, 2])
    );
}

#[test]
fn buffer_lookup_by_uri() {
    let mut graph = LoadedGltf::new();
    graph
        .buffers
        .push(LoadedGltfBuffer::new_unresolved(0, String::from("geo.bin")));
    graph
        .buffers
        .push(LoadedGltfBuffer::new(1, String::from("geo.bin"), vec![1]));
    assert_eq!(
        graph.get_buffer_data_by_uri(&String::from("geo.bin")),
        Some(&vec![1])
    );
    assert_eq!(graph.get_buffer_data_by_uri(&String::from("missing")), None);
}
