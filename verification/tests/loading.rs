use modelassetlib::builder::load_asset;
use modelassetlib::builder::image_uris_to_announce;
use modelassetlib::builder::resource_requests;
use modelassetlib::builder::ResourceFailure;
use modelassetlib::document::AccessorDecl;
use modelassetlib::document::BufferDecl;
use modelassetlib::document::BufferViewDecl;
use modelassetlib::document::GltfDocument;
use modelassetlib::document::ImageDecl;
use modelassetlib::document::ImageSource;
use modelassetlib::document::MaterialDecl;
use modelassetlib::document::MeshDecl;
use modelassetlib::document::ResourceKind;
use modelassetlib::document::ResourceSource;
use modelassetlib::document::SamplerDecl;
use modelassetlib::document::TextureDecl;
use modelassetlib::error::GltfError;
use modelassetlib::loaded::Dimensions;
use modelassetlib::material::PbrMetallicRoughnessInfo;
use modelassetlib::mesh::PrimitiveInfo;
use modelassetlib::mesh::PrimitiveMode;
use modelassetlib::sampler::MagFilter;
use modelassetlib::sampler::MinFilter;
use modelassetlib::sampler::WrappingMode;

fn uri_buffer(uri: &str) -> BufferDecl {
    BufferDecl {
        source: ResourceSource::Uri(String::from(uri)),
    }
}

fn uri_image(uri: &str, mime: Option<&str>) -> ImageDecl {
    ImageDecl {
        source: ImageSource::Uri {
            uri: String::from(uri),
            mime_type: mime.map(String::from),
        },
    }
}

fn plain_material() -> MaterialDecl {
    MaterialDecl {
        pbr_metallic_roughness: PbrMetallicRoughnessInfo::new(
            None,
            [0, 0, 0, 0],
            None,
            0,
            0,
        ),
        normal_texture: None,
        occlusion_texture: None,
        emissive_texture: None,
        emissive_factor: [0, 0, 0],
    }
}

#[test]
fn one_failed_buffer_does_not_abort_the_load() {
    let mut document = GltfDocument::new();
    document.buffers.push(uri_buffer("missing.bin"));
    document.buffers.push(uri_buffer("present.bin"));
    document.buffer_views.push(BufferViewDecl {
        buffer_index: 1,
        data_offset: 1,
        data_length: 2,
        data_stride: None,
        target: None,
    });
    let payloads = vec![None, Some(vec![9, 8, 7, 6])];
    let outcome = load_asset(document, payloads, Vec::new()).unwrap();

    assert_eq!(
        outcome.failures,
        vec![ResourceFailure {
            kind: ResourceKind::Buffer,
            index: 0,
            error: GltfError::ResourceResolutionFailed,
        }]
    );
    // Table position still equals document index, so the view's reference to
    // buffer 1 reads the resolved payload.
    assert_eq!(outcome.graph.buffers.len(), 2);
    assert_eq!(outcome.graph.buffers[0].get_uri(), "missing.bin");
    assert!(!outcome.graph.buffers[0].is_resolved());
    assert_eq!(outcome.graph.buffers[1].get_uri(), "present.bin");
    assert_eq!(
        outcome.graph.buffer_views[0].load_data(&outcome.graph),
        Ok(vec![8, 7])
    );
}

#[test]
fn inline_buffer_is_reported_as_unsupported() {
    let mut document = GltfDocument::new();
    document.buffers.push(BufferDecl {
        source: ResourceSource::Inline,
    });
    let outcome = load_asset(document, vec![None], Vec::new()).unwrap();
    assert_eq!(
        outcome.failures,
        vec![ResourceFailure {
            kind: ResourceKind::Buffer,
            index: 0,
            error: GltfError::UnsupportedSourceKind,
        }]
    );
    assert_eq!(outcome.graph.buffers.len(), 1);
    assert!(!outcome.graph.buffers[0].is_resolved());
}

#[test]
fn dangling_view_reference_is_fatal() {
    let mut document = GltfDocument::new();
    document.buffer_views.push(BufferViewDecl {
        buffer_index: 0,
        data_offset: 0,
        data_length: 1,
        data_stride: None,
        target: None,
    });
    let result = load_asset(document, Vec::new(), Vec::new());
    assert!(matches!(result, Err(GltfError::DocumentMalformed)));
}

#[test]
fn accessor_without_view_is_fatal() {
    let mut document = GltfDocument::new();
    document.accessors.push(AccessorDecl {
        buffer_view_index: None,
        comp_size: 4,
        comp_count: 1,
        max_values: None,
        min_values: None,
        dimensions: Dimensions::Scalar,
    });
    let result = load_asset(document, Vec::new(), Vec::new());
    assert!(matches!(result, Err(GltfError::DocumentMalformed)));
}

#[test]
fn dangling_texture_reference_is_fatal() {
    let mut document = GltfDocument::new();
    document.textures.push(TextureDecl {
        source_index: 0,
        sampler_index: 0,
    });
    let result = load_asset(document, Vec::new(), Vec::new());
    assert!(matches!(result, Err(GltfError::DocumentMalformed)));
}

#[test]
fn load_populates_every_table_in_document_order() {
    let mut document = GltfDocument::new();
    document.buffers.push(uri_buffer("geometry.bin"));
    document.buffer_views.push(BufferViewDecl {
        buffer_index: 0,
        data_offset: 0,
        data_length: 4,
        data_stride: Some(4),
        target: None,
    });
    document.accessors.push(AccessorDecl {
        buffer_view_index: Some(0),
        comp_size: 4,
        comp_count: 1,
        max_values: Some(vec![String::from("1.0")]),
        min_values: None,
        dimensions: Dimensions::Scalar,
    });
    document.images.push(uri_image("skin.png", Some("image/png")));
    document.samplers.push(SamplerDecl {
        mag_filter: Some(MagFilter::Linear),
        min_filter: Some(MinFilter::NearestMipmapLinear),
        name: Some(String::from("default")),
        wrap_s: WrappingMode::Repeat,
        wrap_t: WrappingMode::ClampToEdge,
    });
    document.textures.push(TextureDecl {
        source_index: 0,
        sampler_index: 0,
    });
    document.materials.push(plain_material());
    document.meshes.push(MeshDecl {
        primitives: vec![PrimitiveInfo::new(
            0,
            PrimitiveMode::Triangles,
            Some(0),
            Vec::new(),
            Vec::new(),
            Some(0),
        )],
        weights: vec![1.0f32.to_bits()],
    });

    let outcome = load_asset(
        document,
        vec![Some(vec![1, 2, 3, 4])],
        vec![Some(vec![5, 6])],
    )
    .unwrap();
    let graph = &outcome.graph;
    assert!(outcome.failures.is_empty());

    assert_eq!(graph.buffers.len(), 1);
    assert_eq!(graph.buffers[0].get_index(), 0);
    assert_eq!(graph.buffers[0].get_data(), &Some(vec![1, 2, 3, 4]));

    assert_eq!(graph.buffer_views.len(), 1);
    assert_eq!(graph.buffer_views[0].get_index(), 0);
    assert_eq!(graph.buffer_views[0].get_buffer_index(), 0);
    assert_eq!(graph.buffer_views[0].get_data_stride(), Some(4));

    assert_eq!(graph.accessors.len(), 1);
    assert_eq!(graph.accessors[0].get_index(), 0);
    assert_eq!(graph.accessors[0].get_buffer_view_index(), 0);
    assert_eq!(graph.accessors[0].get_comp_count(), 1);
    assert_eq!(
        graph.accessors[0].get_max_values(),
        &Some(vec![String::from("1.0")])
    );
    assert_eq!(graph.accessors[0].get_dimensions(), Dimensions::Scalar);

    assert_eq!(graph.images.len(), 1);
    assert_eq!(graph.images[0].get_uri(), "skin.png");
    assert_eq!(graph.images[0].get_data(), &Some(vec![5, 6]));

    assert_eq!(graph.samplers.len(), 1);
    assert_eq!(graph.samplers[0].get_index(), Some(0));
    assert_eq!(graph.samplers[0].get_mag_filter_gl(), Some(9729));
    assert_eq!(graph.samplers[0].get_min_filter_gl(), Some(9986));
    assert_eq!(graph.samplers[0].get_wrap_s_gl(), 10497);
    assert_eq!(graph.samplers[0].get_wrap_t_gl(), 33071);
    assert_eq!(graph.samplers[0].get_name(), Some(String::from("default")));

    assert_eq!(graph.textures.len(), 1);
    assert_eq!(graph.textures[0].get_source_index(), 0);
    assert_eq!(graph.textures[0].get_sampler_index(), 0);

    assert_eq!(graph.materials.len(), 1);
    assert_eq!(graph.materials[0].get_index(), Some(0));

    assert_eq!(graph.meshes.len(), 1);
    assert_eq!(graph.meshes[0].get_index(), 0);
    assert_eq!(graph.meshes[0].get_primitives().len(), 1);
    assert_eq!(graph.meshes[0].get_weights(), &vec![1.0f32.to_bits()]);
}

#[test]
fn loaded_references_stay_inside_their_tables() {
    let mut document = GltfDocument::new();
    document.buffers.push(uri_buffer("a.bin"));
    document.buffers.push(uri_buffer("b.bin"));
    for buffer_index in 0..2 {
        document.buffer_views.push(BufferViewDecl {
            buffer_index,
            data_offset: 0,
            data_length: 1,
            data_stride: None,
            target: None,
        });
    }
    document.accessors.push(AccessorDecl {
        buffer_view_index: Some(1),
        comp_size: 4,
        comp_count: 0,
        max_values: None,
        min_values: None,
        dimensions: Dimensions::Vec2,
    });
    let outcome = load_asset(document, vec![None, None], Vec::new()).unwrap();
    let graph = &outcome.graph;
    for view in &graph.buffer_views {
        assert!(view.get_buffer_index() < graph.buffers.len());
    }
    for accessor in &graph.accessors {
        assert!(accessor.get_buffer_view_index() < graph.buffer_views.len());
    }
}

#[test]
fn requests_list_buffers_before_images_and_skip_inline_sources() {
    let mut document = GltfDocument::new();
    document.buffers.push(uri_buffer("one.bin"));
    document.buffers.push(BufferDecl {
        source: ResourceSource::Inline,
    });
    document.buffers.push(uri_buffer("two.bin"));
    document.images.push(uri_image("pic.png", Some("image/png")));
    document.images.push(ImageDecl {
        source: ImageSource::Inline,
    });
    let requests = resource_requests(&document);
    assert_eq!(requests.len(), 3);
    assert_eq!(requests[0].kind, ResourceKind::Buffer);
    assert_eq!(requests[0].index, 0);
    assert_eq!(requests[0].uri, "one.bin");
    assert_eq!(requests[0].mime_type, None);
    assert_eq!(requests[1].kind, ResourceKind::Buffer);
    assert_eq!(requests[1].index, 2);
    assert_eq!(requests[1].uri, "two.bin");
    assert_eq!(requests[2].kind, ResourceKind::Image);
    assert_eq!(requests[2].index, 0);
    assert_eq!(requests[2].uri, "pic.png");
    assert_eq!(requests[2].mime_type, Some(String::from("image/png")));
}

#[test]
fn announce_lists_every_uri_sourced_image() {
    let mut document = GltfDocument::new();
    document.images.push(uri_image("a.png", None));
    document.images.push(ImageDecl {
        source: ImageSource::Inline,
    });
    document.images.push(uri_image("b.png", Some("image/png")));
    let uris = image_uris_to_announce(&document);
    assert_eq!(uris, vec![String::from("a.png"), String::from("b.png")]);
}
