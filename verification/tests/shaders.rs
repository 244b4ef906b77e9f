use pi_spine_rs::spine_render::bind_groups::KeySpineBindGroup;
use pi_spine_rs::spine_render::binds::{BindBufferAllocator, BindParam};
use pi_spine_rs::spine_render::gpu_state::{
    BindGroupLayoutEntry, BindingType, CompareFunction, EAddressMode, EAnisotropyClamp, EFilterMode,
    SamplerBorderColor, SamplerDesc, ShaderStages, VertexAttribute, VertexFormat,
};
use pi_spine_rs::spine_render::sampler_desc;
use pi_spine_rs::spine_render::shaders::{
    KeySpineShader, SingleSpineBindGroupLayout, SingleSpineShaderPool,
};

#[test]
fn shader_names() {
    assert_eq!(KeySpineShader::Colored.key(), "Colored");
    assert_eq!(KeySpineShader::ColoredTextured.key(), "ColoredTextured");
    assert_eq!(KeySpineShader::TwoColoredTextured.key(), "TwoColoredTextured");
}

#[test]
fn vertex_sizes() {
    assert_eq!(KeySpineShader::Colored.vertices_bytes_per_element(), 24);
    assert_eq!(KeySpineShader::ColoredTextured.vertices_bytes_per_element(), 32);
    assert_eq!(KeySpineShader::TwoColoredTextured.vertices_bytes_per_element(), 48);
}

#[test]
fn attributes_are_packed_up_to_the_vertex_size() {
    for key in [KeySpineShader::Colored, KeySpineShader::ColoredTextured, KeySpineShader::TwoColoredTextured] {
        let attrs = key.attributes();
        let mut offset = 0u64;
        for (i, a) in attrs.iter().enumerate() {
            assert_eq!(a.shader_location as usize, i);
            assert_eq!(a.offset, offset);
            offset += a.format.size();
        }
        assert_eq!(offset, key.vertices_bytes_per_element() as u64);
    }
    assert_eq!(
        KeySpineShader::TwoColoredTextured.attributes()[3],
        VertexAttribute { format: VertexFormat::Float32x4, offset: 32, shader_location: 3 }
    );
}

#[test]
fn bind_group_layout_entries() {
    let param = BindGroupLayoutEntry {
        binding: 0,
        visibility: ShaderStages::VertexFragment,
        ty: BindingType::UniformBuffer { has_dynamic_offset: false, min_binding_size: 96 },
    };
    assert_eq!(BindParam::SIZE, 96);
    assert_eq!(BindParam::layout_entry(), param);
    assert_eq!(KeySpineShader::Colored.bind_group_layout_entries(), vec![param]);
    let textured = KeySpineShader::ColoredTextured.bind_group_layout_entries();
    assert_eq!(textured.len(), 3);
    assert_eq!(textured[1].ty, BindingType::Texture2d { filterable: true, multisampled: false });
    assert_eq!(textured[2].ty, BindingType::Sampler { filtering: true });
    assert_eq!(textured[2].binding, 2);
    assert_eq!(textured, KeySpineShader::TwoColoredTextured.bind_group_layout_entries());
}

#[test]
fn pools_select_by_shader() {
    let pool = SingleSpineShaderPool { colored: 1, colored_textured: 2, two_colored_textured: 3 };
    assert_eq!(*pool.shader(&KeySpineShader::ColoredTextured), 2);
    let layouts = SingleSpineBindGroupLayout { colored: 'a', colored_textured: 'b', two_colored_textured: 'c' };
    assert_eq!(layouts.value(&KeySpineShader::TwoColoredTextured), vec![&'c']);
    assert_eq!(layouts.value(&KeySpineShader::Colored), vec![&'a']);
}

#[test]
fn sampler_keys_pack_the_fields() {
    let d = sampler_desc();
    assert_eq!(d.address_mode_u, EAddressMode::Repeat);
    assert_eq!(d.mipmap_filter, EFilterMode::Nearest);
    // repeat (1) thrice, linear (1) twice, nearest (0), no compare, one, no border
    assert_eq!(d.key(), 0x11111);
    let other = SamplerDesc {
        compare: Some(CompareFunction::Always),
        anisotropy_clamp: EAnisotropyClamp::Sixteen,
        border_color: Some(SamplerBorderColor::Zero),
        ..d
    };
    assert_eq!(other.key(), 0x11111 + 8 * 0x1000000 + 4 * 0x10000000 + 4 * 0x100000000);
    assert_ne!(d.key(), SamplerDesc { address_mode_w: EAddressMode::ClampToEdge, ..d }.key());
}

#[test]
fn bind_buffer_keys_are_reused_last_in_first_out() {
    let mut a = BindBufferAllocator::new();
    assert_eq!(a.allocate(), 1);
    assert_eq!(a.allocate(), 2);
    assert_eq!(a.allocate(), 3);
    a.release(1);
    a.release(3);
    assert_eq!(a.allocate(), 3);
    assert_eq!(a.allocate(), 1);
    assert_eq!(a.allocate(), 4);
}

#[test]
fn bind_group_keys() {
    let k = KeySpineBindGroup::colored(4);
    assert_eq!(k, KeySpineBindGroup { url: None, buffer: 4, sampler: None });
    let t = KeySpineBindGroup::colored_textured(9, 4, sampler_desc());
    assert_eq!(t.url, Some(9));
    assert_eq!(t.sampler, Some(sampler_desc()));
    assert_eq!(k.to_u64(), KeySpineBindGroup::colored(4).to_u64());
    assert_ne!(k.to_u64(), t.to_u64());
}
