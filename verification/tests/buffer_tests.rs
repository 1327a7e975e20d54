use gfx_tex::buffer::{
    AttributeVar, ConstVar, ConstantBuffer, ConstantBufferVar, Element, Global, InstanceBuffer,
    Structure, VertexBuffer, VertexBufferCommon, InstanceRateMarker, MAX_VERTEX_ATTRIBUTES,
    match_attribute,
};
use gfx_tex::format::{ChannelType, Format, SurfaceType};

struct Vertex;

impl Structure<Format> for Vertex {
    fn spec_query(_name: vstd::seq::Seq<char>) -> Option<Element<Format>> {
        unreachable!()
    }

    fn query(name: &str) -> Option<Element<Format>> {
        match name {
            "a_Pos" => Some(Element {
                format: Format(SurfaceType::R32_G32, ChannelType::Float),
                offset: 0,
                stride: 20,
            }),
            "a_Color" => Some(Element {
                format: Format(SurfaceType::R8_G8_B8_A8, ChannelType::Unorm),
                offset: 8,
                stride: 20,
            }),
            _ => None,
        }
    }
}

fn attribute(name: &str, slot: u8) -> AttributeVar {
    AttributeVar { name: name.to_string(), slot }
}

#[test]
fn vertex_buffer_links_and_binds_its_slots() {
    let mut vb: VertexBuffer<Vertex> = VertexBufferCommon::new();
    assert!(!vb.is_active());
    let linked = vb.link_input(&attribute("a_Pos", 0));
    assert_eq!(
        linked,
        Some(Ok((
            Element { format: Format(SurfaceType::R32_G32, ChannelType::Float), offset: 0, stride: 20 },
            0,
        )))
    );
    assert!(vb.is_active());
    assert_eq!(vb.link_input(&attribute("a_Normal", 1)), None);
    let linked = vb.link_input(&attribute("a_Color", 3));
    assert!(matches!(linked, Some(Ok((e, 0))) if e.offset == 8));

    let mut out: [Option<(u32, usize)>; MAX_VERTEX_ATTRIBUTES] = [None; MAX_VERTEX_ATTRIBUTES];
    out[5] = Some((99, 7));
    vb.bind_to(&mut out, 42);
    for i in 0..MAX_VERTEX_ATTRIBUTES {
        let expected = match i {
            0 | 3 => Some((42, 0)),
            5 => Some((99, 7)),
            _ => None,
        };
        assert_eq!(out[i], expected, "slot {}", i);
    }
}

#[test]
fn instance_buffer_reports_rate_one() {
    let mut ib: InstanceBuffer<Vertex> = VertexBufferCommon::new();
    let linked = ib.link_queried(
        &attribute("a_Offset", 2),
        Some(Element { format: Format(SurfaceType::R32, ChannelType::Float), offset: 4, stride: 8 }),
    );
    assert!(matches!(linked, Some(Ok((_, 1)))));
    assert!(ib.is_active());
    assert_eq!(<[(); 0]>::rate(), 0);
    assert_eq!(<[(); 1]>::rate(), 1);
    assert!(match_attribute(&attribute("a_Offset", 2), Format(SurfaceType::R8, ChannelType::Unorm)));
}

#[test]
fn fresh_vertex_buffer_binds_nothing() {
    let vb: VertexBuffer<Vertex> = VertexBufferCommon::new();
    let mut out: [Option<(u32, usize)>; MAX_VERTEX_ATTRIBUTES] = [Some((1, 1)); MAX_VERTEX_ATTRIBUTES];
    vb.bind_to(&mut out, 42);
    assert!(out.iter().all(|v| *v == Some((1, 1))));
}

#[test]
fn constant_buffer_links_by_name() {
    let mut cb: ConstantBuffer<Vertex> = ConstantBuffer::new();
    assert!(!cb.is_active());
    let var = ConstantBufferVar { name: "Locals".to_string(), slot: 2 };
    assert_eq!(cb.link_constant_buffer::<()>(&var, "Globals"), None);
    assert!(!cb.is_active());
    let mut out: [Option<u32>; 16] = [None; 16];
    cb.bind_to(&mut out, 5);
    assert!(out.iter().all(|v| v.is_none()));
    assert_eq!(cb.link_constant_buffer::<()>(&var, "Locals"), Some(Ok(())));
    assert!(cb.is_active());
    cb.bind_to(&mut out, 5);
    assert_eq!(out[2], Some(5));
    assert_eq!(out.iter().filter(|v| v.is_some()).count(), 1);
}

#[test]
fn global_links_by_name_and_appends_its_value() {
    let mut g: Global<f32> = Global::new();
    let var = ConstVar { name: "u_Time".to_string(), location: 7 };
    let mut out: Vec<(usize, f32)> = Vec::new();
    g.bind_to(&mut out, 1.5);
    assert!(out.is_empty());
    assert_eq!(g.link_global_constant::<()>(&var, "u_Other"), None);
    assert!(!g.is_active());
    assert_eq!(g.link_global_constant::<()>(&var, "u_Time"), Some(Ok(())));
    assert!(g.is_active());
    g.bind_to(&mut out, 1.5);
    g.bind_to(&mut out, 2.5);
    assert_eq!(out, vec![(7, 1.5), (7, 2.5)]);
}
