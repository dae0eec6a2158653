//! One outline with its colour and placement, and the list that receives
//! what is drawn.

use vstd::prelude::*;
use crate::color::Color;
use crate::svg_path::{extract_path_str_from_svg_str, path_data_of, ParseError};
use crate::transform::Transform;

verus! {

/// How far the straight edges that stand for a curve may stray from it when
/// an outline is tessellated, in millionths.
pub const FILL_TOLERANCE: i64 = 10_000;

/// One filled outline as it is handed on for tessellation: its path data,
/// the colour of its vertices and the transformation they are mapped
/// through.
#[derive(Debug, PartialEq, Eq)]
pub struct Shape {
    /// The outline, in the notation of the SVG attribute `d`.
    pub path: String,
    /// The colour of every vertex.
    pub color: Color,
    /// Where the outline is placed.
    pub transform: Transform,
}

impl Clone for Shape {
    fn clone(&self) -> (copy: Self)
        ensures
            copy == *self,
    {
        Shape { path: self.path.clone(), color: self.color, transform: self.transform }
    }
}

/// The shapes drawn so far, oldest first.
#[derive(Debug)]
pub struct RenderSink {
    /// What was drawn, in the order in which it was drawn.
    pub shapes: Vec<Shape>,
}

impl RenderSink {
    /// A sink into which nothing has been drawn.
    pub fn new() -> (sink: RenderSink)
        ensures
            sink.shapes@.len() == 0,
    {
        RenderSink { shapes: Vec::new() }
    }
}

/// An outline that can be drawn again and again, each time with the colour
/// and the transformation that it holds at that moment.
#[derive(Debug)]
pub struct MutableMesh {
    /// The colour of the next drawing.
    pub color: Color,
    /// The placement of the next drawing.
    pub transform: Transform,
    /// The outline, in the notation of the SVG attribute `d`.
    pub path: String,
}

impl MutableMesh {
    /// What one drawing of this mesh adds to a sink.
    pub open spec fn shape(&self) -> Shape {
        Shape { path: self.path, color: self.color, transform: self.transform }
    }

    /// A mesh of the outline found in the text of an SVG document, red and
    /// not moved from where the document puts it.
    ///
    /// Fails exactly if no tag of the document carries path data.
    pub fn new(svg_str: &str) -> (r: Result<MutableMesh, ParseError>)
        ensures
            match r {
                Ok(mesh) => {
                    &&& path_data_of(svg_str@) == Some(mesh.path@)
                    &&& mesh.color == Color::red_spec()
                    &&& mesh.transform == Transform::identity_spec()
                },
                Err(_) => path_data_of(svg_str@) is None,
            },
    {
        match extract_path_str_from_svg_str(svg_str) {
            Ok(path) => Ok(
                MutableMesh { color: Color::red(), transform: Transform::identity(), path },
            ),
            Err(e) => Err(e),
        }
    }

    /// A mesh of an outline that is given as path data, red and not moved.
    pub fn from_path_data(path: String) -> (mesh: MutableMesh)
        ensures
            mesh.path == path,
            mesh.color == Color::red_spec(),
            mesh.transform == Transform::identity_spec(),
    {
        MutableMesh { color: Color::red(), transform: Transform::identity(), path }
    }

    /// Draws the outline once, with the colour and the transformation that
    /// the mesh holds now.
    pub fn tesselate(&self, sink: &mut RenderSink)
        ensures
            final(sink).shapes@ == old(sink).shapes@.push(self.shape()),
    {
        sink.shapes.push(
            Shape { path: self.path.clone(), color: self.color, transform: self.transform },
        );
    }

    /// Sets the placement of the drawings that follow.
    pub fn set_transform(&mut self, transform: Transform) -> (mesh: &mut Self)
        ensures
            mesh.transform == transform,
            mesh.color == old(self).color,
            mesh.path == old(self).path,
            *final(self) == *final(mesh),
    {
        self.transform = transform;
        self
    }

    /// Sets the colour of the drawings that follow.
    pub fn set_color(&mut self, color: Color) -> (mesh: &mut Self)
        ensures
            mesh.color == color,
            mesh.transform == old(self).transform,
            mesh.path == old(self).path,
            *final(self) == *final(mesh),
    {
        self.color = color;
        self
    }

    /// Replaces the outline and leaves colour and placement as they are.
    pub fn update_path(&mut self, path: String)
        ensures
            final(self).path == path,
            final(self).color == old(self).color,
            final(self).transform == old(self).transform,
    {
        self.path = path;
    }
}

} // verus!
