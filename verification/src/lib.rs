//! Paragraph-formatting data model for a rich-text document parser:
//! decodes a stream of recognized format control directives into typed,
//! structured paragraph attributes (alignment, spacing, indentation,
//! tab width).

pub mod paragraph;
