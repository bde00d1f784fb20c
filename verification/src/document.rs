//! The document model: a title plus an ordered list of named fields,
//! together with the render-ready snapshot structure handed to the gateway.

use vstd::prelude::*;

verus! {

/// Mathematical model of a [`Field`].
pub ghost struct FieldModel {
    pub name: Seq<char>,
    pub value: Seq<char>,
    pub inline: bool,
}

/// Mathematical model of a [`Document`].
pub ghost struct DocumentModel {
    pub title: Option<Seq<char>>,
    pub fields: Seq<FieldModel>,
}

/// Mathematical model of a [`RenderedField`].
pub ghost struct RenderedFieldModel {
    pub name: Seq<char>,
    pub value: Seq<char>,
    pub inline: bool,
}

/// Mathematical model of a [`RenderedDocument`].
pub ghost struct RenderedDocumentModel {
    pub title: Seq<char>,
    pub fields: Seq<RenderedFieldModel>,
}

/// One named field of the document. Created atomically from one form
/// submission and immutable once created; `inline` is always false here.
pub struct Field {
    pub name: String,
    pub value: String,
    pub inline: bool,
}

impl View for Field {
    type V = FieldModel;

    open spec fn view(&self) -> FieldModel {
        FieldModel { name: self.name@, value: self.value@, inline: self.inline }
    }
}

impl DeepView for Field {
    type V = FieldModel;

    open spec fn deep_view(&self) -> FieldModel {
        self@
    }
}

/// The document being built: an optional title and an append-only,
/// ordered list of fields.
pub struct Document {
    title: Option<String>,
    fields: Vec<Field>,
}

impl View for Document {
    type V = DocumentModel;

    closed spec fn view(&self) -> DocumentModel {
        DocumentModel {
            title: match self.title {
                Some(t) => Some(t@),
                None => None,
            },
            fields: self.fields.deep_view(),
        }
    }
}

/// One field of the render-ready structure.
pub struct RenderedField {
    pub name: String,
    pub value: String,
    pub inline: bool,
}

impl View for RenderedField {
    type V = RenderedFieldModel;

    open spec fn view(&self) -> RenderedFieldModel {
        RenderedFieldModel { name: self.name@, value: self.value@, inline: self.inline }
    }
}

impl DeepView for RenderedField {
    type V = RenderedFieldModel;

    open spec fn deep_view(&self) -> RenderedFieldModel {
        self@
    }
}

/// The render-ready structure handed to the gateway on every render:
/// a single title string plus the ordered name/value pairs, each
/// rendered as a non-inline field, in the order the fields were added.
pub struct RenderedDocument {
    pub title: String,
    pub fields: Vec<RenderedField>,
}

impl View for RenderedDocument {
    type V = RenderedDocumentModel;

    open spec fn view(&self) -> RenderedDocumentModel {
        RenderedDocumentModel { title: self.title@, fields: self.fields.deep_view() }
    }
}

/// What rendering a document yields: the title (or the empty string while
/// no title is set) and one non-inline rendered field per document field,
/// in order. Rendering is a pure function of the document, which is what
/// makes repeated rendering without intervening mutation idempotent.
pub open spec fn render_model(d: DocumentModel) -> RenderedDocumentModel {
    RenderedDocumentModel {
        title: match d.title {
            Some(t) => t,
            None => Seq::<char>::empty(),
        },
        fields: d.fields.map_values(
            |f: FieldModel| RenderedFieldModel { name: f.name, value: f.value, inline: f.inline },
        ),
    }
}

impl Document {
    /// A fresh document: no title, no fields.
    pub fn new() -> (d: Document)
        ensures
            d@.title is None,
            d@.fields == Seq::<FieldModel>::empty(),
    {
        Document { title: None, fields: Vec::new() }
    }

    /// The current title, if one has been set.
    pub fn title(&self) -> (t: &Option<String>)
        ensures
            t is Some <==> self@.title is Some,
            t is Some ==> t->0@ == self@.title->0,
    {
        &self.title
    }

    /// How many fields have been added so far.
    pub fn field_count(&self) -> (n: usize)
        ensures
            n == self@.fields.len(),
    {
        self.fields.len()
    }

    /// The field at the given position, in order of addition.
    pub fn field_at(&self, i: usize) -> (f: &Field)
        requires
            i < self@.fields.len(),
        ensures
            f@ == self@.fields[i as int],
    {
        &self.fields[i]
    }

    /// Sets the title. The field list is untouched.
    pub fn set_title(&mut self, text: String)
        ensures
            final(self)@.title == Some(text@),
            final(self)@.fields == old(self)@.fields,
    {
        self.title = Some(text);
    }

    /// Appends one field, created atomically from one form submission.
    /// Fields are never reordered or removed; `inline` is always false.
    pub fn append_field(&mut self, name: String, value: String)
        ensures
            final(self)@.fields == old(self)@.fields.push(
                FieldModel { name: name@, value: value@, inline: false },
            ),
            final(self)@.title == old(self)@.title,
    {
        let field = Field { name, value, inline: false };
        self.fields.push(field);
    }

    /// A read-only snapshot of the document, handed to the gateway on
    /// every render. The snapshot carries exactly the document's state.
    pub fn snapshot(&self) -> (d: Document)
        ensures
            d@ == self@,
    {
        let title: Option<String> = match &self.title {
            Some(t) => Some(t.clone()),
            None => None,
        };
        let mut fields: Vec<Field> = Vec::new();
        let mut i: usize = 0;
        while i < self.fields.len()
            invariant
                i <= self.fields.len(),
                fields@.len() == i as int,
                forall|k: int| 0 <= k < i as int ==> (#[trigger] fields@[k])@ == self.fields@[k]@,
            decreases self.fields.len() - i,
        {
            let f = &self.fields[i];
            fields.push(Field { name: f.name.clone(), value: f.value.clone(), inline: f.inline });
            i = i + 1;
        }
        let d = Document { title, fields };
        proof {
            assert(d@.fields =~= self@.fields);
            assert(d@ =~= self@);
        }
        d
    }

    /// Renders the document into the render-ready structure. The result
    /// is a function of the document's state alone.
    pub fn render(&self) -> (r: RenderedDocument)
        ensures
            r@ == render_model(self@),
    {
        let title: String = match &self.title {
            Some(t) => t.clone(),
            None => String::new(),
        };
        let mut fields: Vec<RenderedField> = Vec::new();
        let mut i: usize = 0;
        while i < self.fields.len()
            invariant
                i <= self.fields.len(),
                fields@.len() == i as int,
                forall|k: int| 0 <= k < i as int ==> (#[trigger] fields@[k])@
                    == render_model(self@).fields[k],
            decreases self.fields.len() - i,
        {
            let f = &self.fields[i];
            fields.push(
                RenderedField { name: f.name.clone(), value: f.value.clone(), inline: f.inline },
            );
            i = i + 1;
        }
        let r = RenderedDocument { title, fields };
        proof {
            assert(r@.fields =~= render_model(self@).fields);
            assert(r@ =~= render_model(self@));
        }
        r
    }
}

/// Rendering is idempotent: two renders of the same document state,
/// with no intervening mutation, yield identical output.
pub proof fn lemma_render_idempotent(
    d: DocumentModel,
    r1: RenderedDocumentModel,
    r2: RenderedDocumentModel,
)
    requires
        r1 == render_model(d),
        r2 == render_model(d),
    ensures
        r1 == r2,
{
}

} // verus!
