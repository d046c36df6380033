//! The rewrite behind the `pg_export` annotation: it turns a function
//! declaration into one that the server can find by name and call with the C
//! calling convention, and refuses every other kind of declaration.

use vstd::prelude::*;
use vstd::string::*;

verus! {

/// The name under which the rewrite is registered.
pub const PG_EXPORT: &'static str = "pg_export";

/// The attribute that keeps a symbol's name as written.
pub const NO_MANGLE: &'static str = "no_mangle";

/// What is reported for an annotated declaration that is no function.
pub const NOT_A_FUNCTION: &'static str = "you can only export a function to PostgreSQL.";

/// A stretch of source text, from byte `lo` up to byte `hi`.
#[derive(Clone, Copy, Debug, PartialEq, Eq, Structural)]
pub struct Span {
    pub lo: u32,
    pub hi: u32,
}

/// A calling convention.
#[derive(Clone, Copy, Debug, PartialEq, Eq, Structural)]
pub enum Abi {
    Cdecl,
    Stdcall,
    Fastcall,
    Aapcs,
    Win64,
    Rust,
    C,
    System,
    RustIntrinsic,
    RustCall,
}

/// Whether a function is declared `unsafe`.
#[derive(Clone, Copy, Debug, PartialEq, Eq, Structural)]
pub enum Unsafety {
    Unsafe,
    Normal,
}

/// Where an attribute stands: before the item, or inside it.
#[derive(Clone, Copy, Debug, PartialEq, Eq, Structural)]
pub enum AttrStyle {
    Outer,
    Inner,
}

/// An attribute that consists of one word, such as `#[no_mangle]`.
#[derive(Debug)]
pub struct Attribute {
    pub style: AttrStyle,
    pub word: String,
}

/// The annotation as it was written on the item.
#[derive(Debug)]
pub struct MetaItem {
    pub word: String,
}

/// One parameter of a function: its pattern and its type, as source text.
#[derive(Debug)]
pub struct Arg {
    pub pat: String,
    pub ty: String,
}

/// The signature of a function: its parameters, and its return type as
/// source text, or `None` where it returns the unit value.
#[derive(Debug)]
pub struct FnDecl {
    pub inputs: Vec<Arg>,
    pub output: Option<String>,
}

/// The body of a function, as source text.
#[derive(Debug)]
pub struct Block {
    pub source: String,
}

/// What an item declares.
#[allow(non_camel_case_types)]
#[derive(Debug)]
pub enum Item_ {
    ItemExternCrate,
    ItemUse,
    ItemStatic,
    ItemConst,
    /// A function: signature, safety, calling convention and body.
    ItemFn(FnDecl, Unsafety, Abi, Block),
    ItemMod,
    ItemForeignMod,
    ItemTy,
    ItemEnum,
    ItemStruct,
    ItemTrait,
    ItemImpl,
    ItemMac,
}

/// A declaration: its name, its attributes, what it declares and where.
#[derive(Debug)]
pub struct Item {
    pub ident: String,
    pub attrs: Vec<Attribute>,
    pub node: Item_,
    pub span: Span,
}

/// An error reported while expanding.
#[derive(Debug)]
pub struct Diagnostic {
    /// Where the error is reported.
    pub span: Span,
    /// The name of the declaration that is at fault.
    pub item: String,
    /// What is wrong.
    pub message: String,
}

/// The expansion context: it collects the errors that expansions report. A
/// build in which an error was reported fails.
#[derive(Debug)]
pub struct ExtCtxt {
    pub errors: Vec<Diagnostic>,
}

/// A rewrite of annotated items.
#[derive(Clone, Copy, Debug, PartialEq, Eq, Structural)]
pub enum ItemModifier {
    /// `expand_pg_export`.
    PgExport,
}

/// A syntax extension that a plugin can register.
#[derive(Clone, Copy, Debug, PartialEq, Eq, Structural)]
pub enum SyntaxExtension {
    /// An annotation that rewrites the item it stands on.
    Modifier(ItemModifier),
}

/// A syntax extension with the name it is invoked by.
#[derive(Debug)]
pub struct NamedSyntaxExtension {
    pub name: String,
    pub ext: SyntaxExtension,
}

/// What a plugin has registered with the compiler.
#[derive(Debug)]
pub struct Registry {
    pub syntax_exts: Vec<NamedSyntaxExtension>,
}

impl Item {
    /// The item declares a function.
    pub open spec fn spec_is_fn_like(&self) -> bool {
        self.node is ItemFn
    }

    /// Whether the item declares a function.
    #[verifier::when_used_as_spec(spec_is_fn_like)]
    pub fn is_fn_like(&self) -> (b: bool)
        ensures
            b == self.spec_is_fn_like(),
    {
        match &self.node {
            Item_::ItemFn(_, _, _, _) => true,
            _ => false,
        }
    }

    /// `out` is the function `self` made ready for export: called with the C
    /// convention, with `#[no_mangle]` added behind the attributes it had,
    /// and with the same name, signature, safety, body and place.
    pub open spec fn exported_as(&self, out: &Item) -> bool {
        &&& self.node is ItemFn
        &&& out.node is ItemFn
        &&& out.node->ItemFn_0 == self.node->ItemFn_0
        &&& out.node->ItemFn_1 == self.node->ItemFn_1
        &&& out.node->ItemFn_2 == Abi::C
        &&& out.node->ItemFn_3 == self.node->ItemFn_3
        &&& out.ident == self.ident
        &&& out.span == self.span
        &&& out.attrs@.len() == self.attrs@.len() + 1
        &&& out.attrs@.drop_last() == self.attrs@
        &&& out.attrs@.last().style == AttrStyle::Outer
        &&& out.attrs@.last().word@ == NO_MANGLE@
    }
}

impl ExtCtxt {
    /// A context in which nothing was reported yet.
    pub fn new() -> (cx: ExtCtxt)
        ensures
            cx.errors@.len() == 0,
    {
        ExtCtxt { errors: Vec::new() }
    }

    /// `after` is `self` with one more error: that `item` is no function,
    /// reported at `span`.
    pub open spec fn refused(&self, after: &ExtCtxt, span: Span, item: Seq<char>) -> bool {
        &&& after.errors@.len() == self.errors@.len() + 1
        &&& after.errors@.drop_last() == self.errors@
        &&& after.errors@.last().span == span
        &&& after.errors@.last().item@ == item
        &&& after.errors@.last().message@ == NOT_A_FUNCTION@
    }

    /// Reports at `span` that the declaration named `item` is at fault:
    /// `message` says why.
    pub fn span_err(&mut self, span: Span, item: &str, message: &str)
        ensures
            final(self).errors@.len() == old(self).errors@.len() + 1,
            final(self).errors@.drop_last() == old(self).errors@,
            final(self).errors@.last().span == span,
            final(self).errors@.last().item@ == item@,
            final(self).errors@.last().message@ == message@,
    {
        self.errors.push(Diagnostic { span, item: item.to_owned(), message: message.to_owned() });
        assert(self.errors@.drop_last() =~= old(self).errors@);
    }
}

/// Makes the function `item`, annotated at `span`, ready for export: it is
/// called with the C convention and its symbol keeps the name it was
/// declared with. Nothing else of it changes. An item that is no function is
/// refused: an error that names it is reported at `span`, and nothing is
/// emitted.
pub fn expand_pg_export(cx: &mut ExtCtxt, span: Span, meta: &MetaItem, item: Item) -> (r: Option<
    Item,
>)
    ensures
        r is Some <==> item.is_fn_like(),
        r is Some ==> item.exported_as(&r->0) && final(cx).errors@ == old(cx).errors@,
        r is None ==> old(cx).refused(final(cx), span, item.ident@),
{
    let Item { ident, attrs, node, span: place } = item;
    match node {
        Item_::ItemFn(decl, unsafety, _, body) => {
            let mut attrs = attrs;
            let ghost before = attrs@;
            attrs.push(Attribute { style: AttrStyle::Outer, word: NO_MANGLE.to_owned() });
            assert(attrs@.drop_last() =~= before);
            Some(
                Item { ident, attrs, node: Item_::ItemFn(decl, unsafety, Abi::C, body), span: place },
            )
        },
        _ => {
            cx.span_err(span, ident.as_str(), NOT_A_FUNCTION);
            None
        },
    }
}

impl ItemModifier {
    /// Applies the rewrite to `item`, annotated at `span`.
    pub fn expand(&self, cx: &mut ExtCtxt, span: Span, meta: &MetaItem, item: Item) -> (r: Option<
        Item,
    >)
        ensures
            r is Some <==> item.is_fn_like(),
            r is Some ==> item.exported_as(&r->0) && final(cx).errors@ == old(cx).errors@,
            r is None ==> old(cx).refused(final(cx), span, item.ident@),
    {
        match self {
            ItemModifier::PgExport => expand_pg_export(cx, span, meta, item),
        }
    }
}

impl Registry {
    /// A registry in which nothing is registered yet.
    pub fn new() -> (reg: Registry)
        ensures
            reg.syntax_exts@.len() == 0,
    {
        Registry { syntax_exts: Vec::new() }
    }

    /// Registers `ext` under `name`, behind what is registered already.
    pub fn register_syntax_extension(&mut self, name: &str, ext: SyntaxExtension)
        ensures
            final(self).syntax_exts@.len() == old(self).syntax_exts@.len() + 1,
            final(self).syntax_exts@.drop_last() == old(self).syntax_exts@,
            final(self).syntax_exts@.last().name@ == name@,
            final(self).syntax_exts@.last().ext == ext,
    {
        self.syntax_exts.push(NamedSyntaxExtension { name: name.to_owned(), ext });
        assert(self.syntax_exts@.drop_last() =~= old(self).syntax_exts@);
    }
}

/// Registers the export rewrite under the name `pg_export`, as an annotation
/// that rewrites the item it stands on.
pub fn plugin_registrar(reg: &mut Registry)
    ensures
        final(reg).syntax_exts@.len() == old(reg).syntax_exts@.len() + 1,
        final(reg).syntax_exts@.drop_last() == old(reg).syntax_exts@,
        final(reg).syntax_exts@.last().name@ == PG_EXPORT@,
        final(reg).syntax_exts@.last().ext == SyntaxExtension::Modifier(ItemModifier::PgExport),
{
    reg.register_syntax_extension(PG_EXPORT, SyntaxExtension::Modifier(ItemModifier::PgExport));
}

/// Exporting changes nothing of what a function does: the exported function
/// has the signature, the safety and the body of the declared one, under the
/// same name; it differs in its calling convention and its attributes alone.
pub proof fn lemma_export_keeps_function(item: Item, out: Item)
    requires
        item.exported_as(&out),
    ensures
        out.ident@ == item.ident@,
        out.node->ItemFn_0.inputs@ == item.node->ItemFn_0.inputs@,
        out.node->ItemFn_0.output == item.node->ItemFn_0.output,
        out.node->ItemFn_1 == item.node->ItemFn_1,
        out.node->ItemFn_3.source@ == item.node->ItemFn_3.source@,
        forall|i: int| 0 <= i < item.attrs@.len() ==> out.attrs@[i] == item.attrs@[i],
{
    assert forall|i: int| 0 <= i < item.attrs@.len() implies out.attrs@[i] == item.attrs@[i] by {
        assert(out.attrs@.drop_last()[i] == out.attrs@[i]);
    }
}

} // verus!
