# koob

A publisher for books written in Markdown. Each book directory holds a `book.yml`
(file name, cover, title, author, series), a `chapters/` directory, and editions, each with
an `edition.yml` (EPUB or PDF, ISBN, dates, special pages). For every edition the program
writes its special pages, metadata documents and style sheet or filter into the edition's
`output/` directory, then has pandoc make the EPUB or PDF.

- `src/` is the verified library (Verus): what each edition needs, what every generated file
  holds and how pandoc is to be run. Page templates are filled in by handlebars.
- `app/` is the program around it: finding books, reading YAML, writing files, running pandoc.
  It reads the page templates (`pages/{epub,pdf}/*.md`), the EPUB style sheets
  (`css/epub/blitz.css`, `css/epub/style.css`) and the PDF filter
  (`filters/pdf/special_pages.lua`) from the directory it runs in.

Two kinds of page template are refused before handlebars sees them, because handlebars
renders them by recursion without a bound: a template whose inline partials
(`{{#*inline "name"}}...{{/inline}}`) may call a partial, and a template that nests blocks,
`else` links and subexpressions more than 64 deep. Every other template, including ones that
call partials, is rendered by handlebars as it is.
